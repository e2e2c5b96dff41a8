//! The calls that this library makes into other crates and into parts of the
//! standard library that have no verified specification. Nothing in this
//! file is proved: each item states what is assumed of the code it calls.
use reqwest::header::HeaderMap;
use vstd::prelude::*;
use vstd::utf8::encode_utf8;

verus! {

/// `String::push` of the standard library: the string afterwards is the
/// string before with `c` appended.
pub assume_specification[ String::push ](s: &mut String, c: char)
    ensures
        final(s)@ == old(s)@.push(c),
;

/// The lowercase form of a text under the Unicode case mapping.
pub uninterp spec fn lowercase(s: Seq<char>) -> Seq<char>;

/// `str::to_lowercase` of the standard library returns the lowercase form
/// of its argument; the mapping itself is not spelled out here.
pub assume_specification[ str::to_lowercase ](s: &str) -> (r: String)
    ensures
        r@ == lowercase(s@),
;

/// The text that lossy UTF-8 decoding makes of `bytes`: valid sequences
/// decode to their characters, each invalid one to U+FFFD.
pub uninterp spec fn utf8_lossy(bytes: Seq<u8>) -> Seq<char>;

/// `String::from_utf8_lossy` of the standard library, with its result owned.
#[verifier::external_body]
pub(crate) fn decode_utf8_lossy(bytes: &Vec<u8>) -> (r: String)
    ensures
        r@ == utf8_lossy(bytes@),
{
    String::from_utf8_lossy(bytes.as_slice()).into_owned()
}

/// Whether the regular expression `pattern` has a match in `text`; `None`
/// where `pattern` is no valid regular expression.
pub uninterp spec fn regex_is_match(pattern: Seq<char>, text: Seq<char>) -> Option<bool>;

/// `regex::Regex::is_match`, on an expression compiled from `pattern` by
/// `regex::Regex::new`. The result depends on the two texts alone.
#[verifier::external_body]
pub(crate) fn regex_match(pattern: &str, text: &str) -> (r: Option<bool>)
    ensures
        r == regex_is_match(pattern@, text@),
{
    match regex::Regex::new(pattern) {
        Ok(re) => Some(re.is_match(text)),
        Err(_) => None,
    }
}

/// The capture groups of the leftmost match of the regular expression
/// `pattern` in `text`, group 0 first; a group that did not take part is
/// `None`. The whole is `None` where nothing matches or `pattern` is no
/// valid regular expression.
pub uninterp spec fn regex_captures(pattern: Seq<char>, text: Seq<char>) -> Option<
    Seq<Option<Seq<char>>>,
>;

/// The texts of a list of optional strings.
pub open spec fn groups_view(groups: Option<Vec<Option<String>>>) -> Option<Seq<Option<Seq<char>>>> {
    match groups {
        Some(v) => Some(
            Seq::new(
                v@.len(),
                |i: int|
                    match v@[i] {
                        Some(t) => Some(t@),
                        None => None,
                    },
            ),
        ),
        None => None,
    }
}

/// `regex::Regex::captures`, on an expression compiled from `pattern` by
/// `regex::Regex::new`, with each group copied out as text.
#[verifier::external_body]
pub(crate) fn regex_groups(pattern: &str, text: &str) -> (r: Option<Vec<Option<String>>>)
    ensures
        groups_view(r) == regex_captures(pattern@, text@),
{
    let re = regex::Regex::new(pattern).ok()?;
    let caps = re.captures(text)?;
    Some(caps.iter().map(|m| m.map(|m| m.as_str().to_string())).collect())
}

/// Whether the glob `glob` matches `path`, by the rules of the `fast_glob`
/// crate.
pub uninterp spec fn glob_matches(glob: Seq<char>, path: Seq<char>) -> bool;

/// `fast_glob::glob_match`.
#[verifier::external_body]
pub(crate) fn glob_match(glob: &str, path: &str) -> (r: bool)
    ensures
        r == glob_matches(glob@, path@),
{
    fast_glob::glob_match(glob, path)
}

/// The BLAKE3 digest of the UTF-8 bytes of `text`, as 64 lowercase
/// hexadecimal digits.
pub uninterp spec fn blake3_hex(text: Seq<char>) -> Seq<char>;

/// `blake3::Hasher` fed with the bytes of `text`, its digest written in
/// hexadecimal.
#[verifier::external_body]
pub(crate) fn blake3_digest(text: &str) -> (r: String)
    ensures
        r@ == blake3_hex(text@),
{
    let mut hasher = blake3::Hasher::new();
    hasher.update(text.as_bytes());
    hasher.finalize().to_hex().to_string()
}

/// A URL as the `url` crate reads it.
pub struct ParsedUrl {
    /// The whole URL in its normal form.
    pub text: String,
    /// Its path component.
    pub path: String,
}

/// What the `url` crate makes of `input`: the URL in normal form and its
/// path, or `None` where `input` is no URL.
pub uninterp spec fn url_parse(input: Seq<char>) -> Option<(Seq<char>, Seq<char>)>;

/// The error with which the `url` crate refuses a text.
#[verifier::external_type_specification]
#[verifier::external_body]
pub struct ExUrlParseError(url::ParseError);

/// `url::Url::parse`; of the URL it keeps `Url::path` and the text that
/// `Display` writes.
#[verifier::external_body]
pub(crate) fn parse_url(input: &str) -> (r: Result<ParsedUrl, url::ParseError>)
    ensures
        match r {
            Ok(u) => url_parse(input@) == Some((u.text@, u.path@)),
            Err(_) => url_parse(input@) is None,
        },
{
    match url::Url::parse(input) {
        Ok(u) => Ok(ParsedUrl { text: u.to_string(), path: u.path().to_string() }),
        Err(e) => Err(e),
    }
}

/// How an HTTP status code is written: the number and its canonical reason
/// phrase.
pub uninterp spec fn status_display(code: u16) -> Seq<char>;

/// `Display` of `reqwest::StatusCode`, on the code that
/// `StatusCode::from_u16` accepts, which it does from 100 to 999.
#[verifier::external_body]
pub(crate) fn status_text(code: u16) -> (r: String)
    requires
        100 <= code < 1000,
    ensures
        r@ == status_display(code),
{
    reqwest::StatusCode::from_u16(code).unwrap().to_string()
}

/// An I/O error of the standard library.
#[verifier::external_type_specification]
#[verifier::external_body]
pub struct ExIoError(std::io::Error);

/// An error of the HTTP client.
#[verifier::external_type_specification]
#[verifier::external_body]
pub struct ExNetworkError(reqwest::Error);

/// `Display` of `std::io::Error`. The text comes from the operating system;
/// nothing is claimed of it.
#[verifier::external_body]
pub(crate) fn io_error_text(error: &std::io::Error) -> String {
    error.to_string()
}

/// The header map of the HTTP client, generic in the type of its values.
#[verifier::external_type_specification]
#[verifier::external_body]
#[verifier::reject_recursive_types(T)]
pub struct ExHeaderMap<T>(reqwest::header::HeaderMap<T>);

/// The value of one header.
#[verifier::external_type_specification]
#[verifier::external_body]
pub struct ExHeaderValue(reqwest::header::HeaderValue);

/// What a header map holds: each header name in it, in lowercase, with the
/// bytes of each of its values, in their order.
pub uninterp spec fn header_entries(headers: HeaderMap) -> Map<Seq<char>, Seq<Seq<u8>>>;

/// How many names a header map holds.
pub uninterp spec fn header_names(headers: HeaderMap) -> nat;

/// A character that a header name may hold: a letter, a digit or one of
/// ``!#$%&'*+-.^_`|~``.
pub open spec fn is_name_char(c: char) -> bool {
    ||| 'a' <= c <= 'z'
    ||| 'A' <= c <= 'Z'
    ||| '0' <= c <= '9'
    ||| c == '!'
    ||| c == '#'
    ||| c == '$'
    ||| c == '%'
    ||| c == '&'
    ||| c == '\''
    ||| c == '*'
    ||| c == '+'
    ||| c == '-'
    ||| c == '.'
    ||| c == '^'
    ||| c == '_'
    ||| c == '`'
    ||| c == '|'
    ||| c == '~'
}

/// The texts that the client accepts as a header name: 1 to 65535
/// characters, each one a name character.
pub open spec fn header_name_ok(name: Seq<char>) -> bool {
    &&& 1 <= name.len() <= 65535
    &&& forall|i: int| 0 <= i < name.len() ==> is_name_char(#[trigger] name[i])
}

/// The texts that the client accepts as a header value: no control
/// character but the tab, and no DEL.
pub open spec fn header_value_ok(value: Seq<char>) -> bool {
    forall|i: int|
        0 <= i < value.len() ==> {
            let c = #[trigger] value[i];
            c == '\t' || (c >= ' ' && c != '\u{7f}')
        }
}

/// An ASCII capital letter as its small letter, any other character as it is.
pub open spec fn ascii_lower_char(c: char) -> char {
    if 'A' <= c <= 'Z' {
        ((c as u32) + 32) as char
    } else {
        c
    }
}

/// `name` with its ASCII capital letters made small.
pub open spec fn ascii_lower(name: Seq<char>) -> Seq<char> {
    Seq::new(name.len(), |i: int| ascii_lower_char(name[i]))
}

/// The number of names below which storing a header always succeeds. The
/// map refuses to grow past 32768 slots, which a map of fewer names than
/// this never asks for.
pub const HEADER_ROOM: usize = 4096;

/// The contents of a map that holds nothing.
pub open spec fn no_headers() -> Map<Seq<char>, Seq<Seq<u8>>> {
    Map::empty()
}

/// `HeaderMap::new`: a map that holds nothing.
#[verifier::external_body]
pub(crate) fn header_map_new() -> (headers: HeaderMap)
    ensures
        header_entries(headers) == no_headers(),
        header_names(headers) == 0,
{
    HeaderMap::new()
}

/// `HeaderMap::keys_len`: the number of names that the map holds.
#[verifier::external_body]
pub(crate) fn header_count(headers: &HeaderMap) -> (n: usize)
    ensures
        n == header_names(*headers),
{
    headers.keys_len()
}

/// `HeaderMap::insert`, with the name read by `HeaderName::from_bytes` and
/// the value by `HeaderValue::from_str`: afterwards the name, in lowercase,
/// has this one value, and the other names are as before; the map holds
/// one name more where it did not hold the name. It panics on a name or
/// value that the client refuses and when the map cannot grow; the
/// preconditions leave those out.
#[verifier::external_body]
pub(crate) fn header_insert(headers: &mut HeaderMap, name: &str, value: &str)
    requires
        header_name_ok(name@),
        header_value_ok(value@),
        header_names(*old(headers)) < HEADER_ROOM,
    ensures
        header_entries(*final(headers)) == header_entries(*old(headers)).insert(
            ascii_lower(name@),
            seq![encode_utf8(value@)],
        ),
        header_names(*final(headers)) == if header_entries(*old(headers)).contains_key(
            ascii_lower(name@),
        ) {
            header_names(*old(headers))
        } else {
            header_names(*old(headers)) + 1
        },
{
    let name = reqwest::header::HeaderName::from_bytes(name.as_bytes()).unwrap();
    let value = reqwest::header::HeaderValue::from_str(value).unwrap();
    headers.insert(name, value);
}

} // verus!
