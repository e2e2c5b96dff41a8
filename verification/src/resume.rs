//! Resuming a partial download: the part file and its sidecar, the headers
//! that ask for the rest, and the reading of the server's answer.
use crate::decimal::{decimal, decimal_chars, digit_char, parse_u64, parse_u64_chars};
use crate::foreign::{
    ascii_lower, header_entries, header_insert, header_names, header_value_ok, HEADER_ROOM,
};
use crate::text::{
    append, chars_of, find, first_index, rsplit_once, rsplit_once_chars, same_text, scan, slice,
    string_of, CharClass,
};
use crate::utils::opt_text;
use reqwest::header::HeaderMap;
use vstd::prelude::*;
use vstd::string::StringExecFns;
use vstd::utf8::encode_utf8;

verus! {

/// The functions that make a download resumable.
pub struct ResumeSupport;

/// What the sidecar of a part file records of the resource it came from.
#[derive(Clone, Debug)]
pub struct DownloadMeta {
    /// The entity tag that the server sent.
    pub etag: Option<String>,
    /// The modification date that the server sent.
    pub last_modified: Option<String>,
}

/// What became of an attempt to read a sidecar.
pub enum Sidecar {
    /// There is no sidecar.
    Absent,
    /// There is one, and it does not decode.
    Corrupt,
    /// There is one, with this content.
    Loaded(DownloadMeta),
}

/// What the head of an HTTP response tells a downloader.
#[derive(Clone, Debug)]
pub struct ResponseHead {
    /// The status code.
    pub status: u16,
    /// The `ETag` header, where it is text.
    pub etag: Option<String>,
    /// The `Last-Modified` header, where it is text.
    pub last_modified: Option<String>,
    /// The `Content-Range` header, where it is text.
    pub content_range: Option<String>,
    /// The length of the body, where it is known.
    pub content_length: Option<u64>,
    /// The `Content-Disposition` header, where it is text.
    pub content_disposition: Option<String>,
}

/// The text `.part`.
pub open spec fn part_suffix() -> Seq<char> {
    seq!['.', 'p', 'a', 'r', 't']
}

/// The text `.part.meta`.
pub open spec fn meta_suffix() -> Seq<char> {
    seq!['.', 'p', 'a', 'r', 't', '.', 'm', 'e', 't', 'a']
}

/// The header name `range`.
pub open spec fn range_name() -> Seq<char> {
    seq!['r', 'a', 'n', 'g', 'e']
}

/// The header name `if-range`.
pub open spec fn if_range_name() -> Seq<char> {
    seq!['i', 'f', '-', 'r', 'a', 'n', 'g', 'e']
}

/// The `Range` value that asks for everything from `downloaded` on.
pub open spec fn range_value(downloaded: u64) -> Seq<char> {
    seq!['b', 'y', 't', 'e', 's', '='] + decimal(downloaded as nat) + seq!['-']
}

/// The identity that a sidecar gives: none where it is absent or corrupt.
pub open spec fn sidecar_identity(sidecar: Sidecar) -> (Option<String>, Option<String>) {
    match sidecar {
        Sidecar::Loaded(meta) => (meta.etag, meta.last_modified),
        _ => (None, None),
    }
}

/// A download starts over when the server refuses the range, or when the
/// entity tag or the modification date is known on both sides and differs.
pub open spec fn restart_needed(
    status: u16,
    etag: Option<Seq<char>>,
    last_modified: Option<Seq<char>>,
    remote_etag: Option<Seq<char>>,
    remote_modified: Option<Seq<char>>,
) -> bool {
    ||| status == 416
    ||| (etag is Some && remote_etag is Some && etag != remote_etag)
    ||| (last_modified is Some && remote_modified is Some && last_modified != remote_modified)
}

/// `s` up to its first `c`; all of `s` when it has none.
pub open spec fn before(s: Seq<char>, c: char) -> Seq<char> {
    let i = find(s, c);
    if 0 <= i <= s.len() {
        s.take(i)
    } else {
        s
    }
}

/// `s` from its first character inside (`want` false) or outside (`want`
/// true) the white space on.
pub open spec fn skip_to(s: Seq<char>, want: bool) -> Seq<char> {
    let i = first_index(s, CharClass::Space, want);
    if 0 <= i <= s.len() {
        s.skip(i)
    } else {
        s
    }
}

/// The second of the words that white space separates in `s`.
pub open spec fn second_word(s: Seq<char>) -> Option<Seq<char>> {
    let from_second = skip_to(skip_to(skip_to(s, false), true), false);
    if from_second.len() == 0 {
        None
    } else {
        let end = first_index(from_second, CharClass::Space, true);
        if 0 <= end <= from_second.len() {
            Some(from_second.take(end))
        } else {
            Some(from_second)
        }
    }
}

/// The first byte position that a `Content-Range` value names.
pub open spec fn range_start(content_range: Seq<char>) -> Option<u64> {
    match second_word(content_range) {
        Some(word) => parse_u64(before(before(word, '/'), '-')),
        None => None,
    }
}

/// The total size that a `Content-Range` value names.
pub open spec fn range_total(content_range: Seq<char>) -> Option<u64> {
    match rsplit_once(content_range, '/') {
        Some(halves) => parse_u64(halves.1),
        None => None,
    }
}

/// Whether the part file must be cut back, and the total size: the part is
/// cut when the range that the server sends starts elsewhere than where the
/// part ends; the total is that of `Content-Range`, else the body length,
/// else 0.
pub open spec fn range_info(
    content_range: Option<Seq<char>>,
    content_length: Option<u64>,
    downloaded: u64,
) -> (bool, u64) {
    let start = match content_range {
        Some(value) => range_start(value),
        None => None,
    };
    let named_total = match content_range {
        Some(value) => range_total(value),
        None => None,
    };
    (
        match start {
            Some(at) => at != downloaded,
            None => false,
        },
        match named_total {
            Some(total) => total,
            None => match content_length {
                Some(length) => length,
                None => 0,
            },
        },
    )
}

/// The header entries after the resume headers are set: nothing changes
/// for a download that starts at 0; otherwise `range` asks for the rest and
/// `if-range` carries the entity tag, or else the modification date.
pub open spec fn resume_entries(
    entries: Map<Seq<char>, Seq<Seq<u8>>>,
    downloaded: u64,
    etag: Option<Seq<char>>,
    last_modified: Option<Seq<char>>,
) -> Map<Seq<char>, Seq<Seq<u8>>> {
    if downloaded == 0 {
        entries
    } else {
        let ranged = entries.insert(range_name(), seq![encode_utf8(range_value(downloaded))]);
        match etag {
            Some(tag) => ranged.insert(if_range_name(), seq![encode_utf8(tag)]),
            None => match last_modified {
                Some(date) => ranged.insert(if_range_name(), seq![encode_utf8(date)]),
                None => ranged,
            },
        }
    }
}

/// A decimal numeral is made of digits.
pub proof fn lemma_decimal_is_digits(n: nat)
    ensures
        forall|i: int| 0 <= i < decimal(n).len() ==> '0' <= #[trigger] decimal(n)[i] <= '9',
    decreases n,
{
    if n >= 10 {
        lemma_decimal_is_digits(n / 10);
        let high = decimal(n / 10);
        assert forall|i: int| 0 <= i < decimal(n).len() implies '0' <= #[trigger] decimal(n)[i]
            <= '9' by {
            if i < high.len() {
                assert(decimal(n)[i] == high[i]);
            } else {
                assert(decimal(n)[i] == digit_char(n % 10));
            }
        }
    } else {
        assert(decimal(n)[0] == digit_char(n));
    }
}

/// The `Range` value for a download that has `downloaded` bytes.
fn range_request(downloaded: u64) -> (r: String)
    ensures
        r@ == range_value(downloaded),
        header_value_ok(r@),
{
    let mut v = chars_of("bytes=");
    proof {
        reveal_strlit("bytes=");
        assert(v@ =~= seq!['b', 'y', 't', 'e', 's', '=']);
        lemma_decimal_is_digits(downloaded as nat);
    }
    let digits = decimal_chars(downloaded);
    append(&mut v, &digits);
    v.push('-');
    assert(v@ =~= range_value(downloaded));
    string_of(&v)
}

impl ResumeSupport {
    /// The identity of the resource that a part file came from, as its
    /// sidecar gives it. A sidecar that is missing or does not decode gives
    /// none.
    pub fn read_metadata(sidecar: Sidecar) -> (r: (Option<String>, Option<String>))
        ensures
            r == sidecar_identity(sidecar),
    {
        match sidecar {
            Sidecar::Loaded(meta) => (meta.etag, meta.last_modified),
            _ => (None, None),
        }
    }

    /// The record that the sidecar is to hold for a resource with this
    /// identity.
    pub fn write_metadata(etag: Option<String>, last_modified: Option<String>) -> (meta:
        DownloadMeta)
        ensures
            meta.etag == etag,
            meta.last_modified == last_modified,
    {
        DownloadMeta { etag, last_modified }
    }

    /// The paths of the part file and of its sidecar for the target `path`.
    pub fn get_part_paths(path: &str) -> (r: (String, String))
        ensures
            r.0@ == path@ + part_suffix(),
            r.1@ == path@ + meta_suffix(),
    {
        proof {
            reveal_strlit(".part");
            reveal_strlit(".part.meta");
        }
        let part = String::from_str(path).concat(".part");
        let meta = String::from_str(path).concat(".part.meta");
        assert(".part"@ =~= part_suffix());
        assert(".part.meta"@ =~= meta_suffix());
        (part, meta)
    }

    /// Whether a download must start over, given the answer's status and
    /// the identity of the resource on both sides.
    pub fn should_restart_download(
        status: u16,
        etag: &Option<String>,
        last_modified: &Option<String>,
        remote_etag: &Option<String>,
        remote_modified: &Option<String>,
    ) -> (r: bool)
        ensures
            r == restart_needed(
                status,
                opt_text(*etag),
                opt_text(*last_modified),
                opt_text(*remote_etag),
                opt_text(*remote_modified),
            ),
    {
        if status == 416 {
            return true;
        }
        let tags_differ = match (etag, remote_etag) {
            (Some(local), Some(remote)) => !same_text(local.as_str(), remote.as_str()),
            _ => false,
        };
        let dates_differ = match (last_modified, remote_modified) {
            (Some(local), Some(remote)) => !same_text(local.as_str(), remote.as_str()),
            _ => false,
        };
        tags_differ || dates_differ
    }

    /// Reads from a response whether the part file must be cut back, and
    /// the total size of the resource.
    pub fn extract_range_info(response: &ResponseHead, downloaded: u64) -> (r: (bool, u64))
        ensures
            r == range_info(opt_text(response.content_range), response.content_length, downloaded),
    {
        let (start, named_total) = match &response.content_range {
            Some(value) => {
                let v = chars_of(value.as_str());
                (read_range_start(&v), read_range_total(&v))
            },
            None => (None, None),
        };
        let truncate = match start {
            Some(at) => at != downloaded,
            None => false,
        };
        let total = match named_total {
            Some(total) => total,
            None => match response.content_length {
                Some(length) => length,
                None => 0,
            },
        };
        (truncate, total)
    }

    /// Sets the headers that ask the server for the rest of a resource.
    pub fn prepare_resume_headers(
        headers: &mut HeaderMap,
        downloaded: u64,
        etag: &Option<String>,
        last_modified: &Option<String>,
    )
        requires
            header_names(*old(headers)) + 2 <= HEADER_ROOM,
            etag matches Some(tag) ==> header_value_ok(tag@),
            last_modified matches Some(date) ==> header_value_ok(date@),
        ensures
            header_entries(*final(headers)) == resume_entries(
                header_entries(*old(headers)),
                downloaded,
                opt_text(*etag),
                opt_text(*last_modified),
            ),
    {
        if downloaded > 0 {
            proof {
                reveal_strlit("range");
                reveal_strlit("if-range");
                assert("range"@ =~= range_name());
                assert("if-range"@ =~= if_range_name());
                assert(ascii_lower(range_name()) =~= range_name());
                assert(ascii_lower(if_range_name()) =~= if_range_name());
            }
            let range = range_request(downloaded);
            header_insert(headers, "range", range.as_str());
            match etag {
                Some(tag) => {
                    header_insert(headers, "if-range", tag.as_str());
                },
                None => match last_modified {
                    Some(date) => {
                        header_insert(headers, "if-range", date.as_str());
                    },
                    None => {},
                },
            }
        }
    }
}

/// Reads the first byte position out of a `Content-Range` value.
fn read_range_start(value: &Vec<char>) -> (r: Option<u64>)
    ensures
        r == range_start(value@),
{
    let a = scan(value, 0, CharClass::Space, false);
    let b = scan(value, a, CharClass::Space, true);
    let c = scan(value, b, CharClass::Space, false);
    proof {
        assert(value@.skip(0) == value@);
        let s1 = skip_to(value@, false);
        assert(s1 == value@.skip(a as int));
        let s2 = skip_to(s1, true);
        assert(s1.skip(b - a) == value@.skip(b as int));
        assert(s2 == value@.skip(b as int));
        let s3 = skip_to(s2, false);
        assert(s2.skip(c - b) == value@.skip(c as int));
        assert(s3 == value@.skip(c as int));
    }
    if c == value.len() {
        return None;
    }
    let d = scan(value, c, CharClass::Space, true);
    let word = slice(value, c, d);
    assert(word@ == value@.skip(c as int).take(d - c));
    let slash = scan(&word, 0, CharClass::Just('/'), true);
    let head = slice(&word, 0, slash);
    let dash = scan(&head, 0, CharClass::Just('-'), true);
    let first = slice(&head, 0, dash);
    proof {
        assert(word@.skip(0) == word@);
        assert(head@.skip(0) == head@);
        assert(head@ == word@.take(slash as int));
        assert(first@ == head@.take(dash as int));
    }
    parse_u64_chars(&first)
}

/// Reads the total size out of a `Content-Range` value.
fn read_range_total(value: &Vec<char>) -> (r: Option<u64>)
    ensures
        r == range_total(value@),
{
    match rsplit_once_chars(value, '/') {
        Some((_, total)) => parse_u64_chars(&total),
        None => None,
    }
}

} // verus!
