//! Small rules shared by the downloaders: file names from URLs and headers,
//! the name filter, percent-decoding, the overwrite mode.
use crate::foreign::{
    blake3_digest, blake3_hex, decode_utf8_lossy, glob_match, glob_matches, lowercase, parse_url,
    regex_is_match, regex_match, url_parse, utf8_lossy,
};
use crate::path::{file_name, file_name_chars, join, join_chars};
use crate::text::{
    append, chars_of, contains, contains_chars, lowercase_chars, occurs_at_chars, slice, split,
    split_chars, starts_with, string_of, trim, trim_chars, views, CharClass,
};
use vstd::prelude::*;
use vstd::string::StringExecFns;

verus! {

/// The four bytes that open an ELF executable.
pub const ELF_MAGIC_BYTES: [u8; 4] = [0x7f, 0x45, 0x4c, 0x46];

/// What to do when the target of a download already exists.
#[derive(Clone, Copy, Debug, PartialEq, Eq, Structural)]
pub enum FileMode {
    /// Keep the existing file and transfer nothing.
    SkipExisting,
    /// Replace the existing file.
    ForceOverwrite,
    /// Ask before replacing the existing file.
    PromptOverwrite,
}

/// The overwrite mode that two switches select: `skip` wins over `force`,
/// and with neither the user is asked.
pub open spec fn file_mode_of(skip: bool, force: bool) -> FileMode {
    if skip {
        FileMode::SkipExisting
    } else if force {
        FileMode::ForceOverwrite
    } else {
        FileMode::PromptOverwrite
    }
}

/// Derives the overwrite mode from the two switches.
pub fn get_file_mode(skip: bool, force: bool) -> (mode: FileMode)
    ensures
        mode == file_mode_of(skip, force),
{
    if skip {
        FileMode::SkipExisting
    } else if force {
        FileMode::ForceOverwrite
    } else {
        FileMode::PromptOverwrite
    }
}

/// Whether `head` begins with the ELF magic.
pub open spec fn has_elf_magic(head: Seq<u8>) -> bool {
    head.len() >= 4 && head[0] == 0x7f && head[1] == 0x45 && head[2] == 0x4c && head[3] == 0x46
}

/// Whether a file whose first bytes are `head` is an ELF executable. A file
/// shorter than the magic is none.
pub fn is_elf(head: &[u8]) -> (r: bool)
    ensures
        r == has_elf_magic(head@),
{
    head.len() >= 4 && head[0] == ELF_MAGIC_BYTES[0] && head[1] == ELF_MAGIC_BYTES[1] && head[2]
        == ELF_MAGIC_BYTES[2] && head[3] == ELF_MAGIC_BYTES[3]
}

/// The statuses on which the mirror is given up for the primary API:
/// 401, 403, 429 and every server error.
pub open spec fn is_fallback_status(status: u16) -> bool {
    status == 429 || status == 401 || status == 403 || 500 <= status < 600
}

/// Whether a mirror's answer with this status sends the request on to the
/// primary API.
pub fn should_fallback(status: u16) -> (r: bool)
    ensures
        r == is_fallback_status(status),
{
    status == 429 || status == 401 || status == 403 || (500 <= status && status < 600)
}

/// The texts of a list of strings.
pub open spec fn texts(v: Seq<String>) -> Seq<Seq<char>> {
    Seq::new(v.len(), |i: int| v[i]@)
}

/// The text of an optional string.
pub open spec fn opt_text(o: Option<String>) -> Option<Seq<char>> {
    match o {
        Some(s) => Some(s@),
        None => None,
    }
}

/// Copies an optional string.
pub fn copy_opt(value: &Option<String>) -> (r: Option<String>)
    ensures
        opt_text(r) == opt_text(*value),
{
    match value {
        Some(text) => Some(String::from_str(text.as_str())),
        None => None,
    }
}

/// The text `filename=`.
pub open spec fn filename_key() -> Seq<char> {
    seq!['f', 'i', 'l', 'e', 'n', 'a', 'm', 'e', '=']
}

/// `s` without every copy of `p` at its start.
pub open spec fn strip_prefix_all(s: Seq<char>, p: Seq<char>) -> Seq<char>
    decreases s.len(),
{
    if p.len() > 0 && starts_with(s, p) {
        strip_prefix_all(s.skip(p.len() as int), p)
    } else {
        s
    }
}

/// The file name that one `;`-separated part of a `Content-Disposition`
/// value gives: the part, trimmed, must begin with `filename=`; the name is
/// what follows, without surrounding double quotes.
pub open spec fn filename_in_part(part: Seq<char>) -> Option<Seq<char>> {
    let t = trim(part, CharClass::Space);
    if starts_with(t, filename_key()) {
        Some(trim(strip_prefix_all(t, filename_key()), CharClass::Just('"')))
    } else {
        None
    }
}

/// The file name of the first part that gives one.
pub open spec fn first_filename(parts: Seq<Seq<char>>) -> Option<Seq<char>>
    decreases parts.len(),
{
    if parts.len() == 0 {
        None
    } else {
        match filename_in_part(parts[0]) {
            Some(name) => Some(name),
            None => first_filename(parts.drop_first()),
        }
    }
}

/// The file name that a `Content-Disposition` value announces.
pub open spec fn disposition_filename(value: Seq<char>) -> Option<Seq<char>> {
    first_filename(split(value, ';'))
}

/// Removes every copy of `p` from the start of `s`.
pub fn strip_prefix_all_chars(s: &Vec<char>, p: &Vec<char>) -> (r: Vec<char>)
    ensures
        r@ == strip_prefix_all(s@, p@),
{
    let mut pos: usize = 0;
    assert(s@.skip(0) == s@);
    while p.len() > 0 && occurs_at_chars(s, p, pos)
        invariant
            pos <= s.len(),
            strip_prefix_all(s@, p@) == strip_prefix_all(s@.skip(pos as int), p@),
        decreases s.len() - pos,
    {
        proof {
            let t = s@.skip(pos as int);
            assert(t.subrange(0, p@.len() as int) == s@.subrange(pos as int, pos + p@.len()));
            assert(t.skip(p@.len() as int) == s@.skip(pos + p@.len()));
        }
        pos += p.len();
    }
    proof {
        let t = s@.skip(pos as int);
        if p@.len() > 0 && starts_with(t, p@) {
            assert(t.subrange(0, p@.len() as int) == s@.subrange(pos as int, pos + p@.len()));
        }
    }
    slice(s, pos, s.len())
}

/// Reads the file name out of a `Content-Disposition` header value.
pub fn extract_filename(header_value: &str) -> (r: Option<String>)
    ensures
        opt_text(r) == disposition_filename(header_value@),
{
    let value = chars_of(header_value);
    let key = chars_of("filename=");
    proof {
        reveal_strlit("filename=");
        assert(key@ =~= filename_key());
    }
    let parts = split_chars(&value, ';');
    let ghost all = views(parts@);
    let mut i: usize = 0;
    assert(all.skip(0) == all);
    while i < parts.len()
        invariant
            i <= parts.len(),
            all == views(parts@),
            all == split(header_value@, ';'),
            key@ == filename_key(),
            first_filename(all) == first_filename(all.skip(i as int)),
        decreases parts.len() - i,
    {
        let t = trim_chars(&parts[i], CharClass::Space);
        proof {
            let rest = all.skip(i as int);
            assert(rest[0] == parts@[i as int]@);
            assert(rest.drop_first() == all.skip(i + 1));
        }
        if occurs_at_chars(&t, &key, 0) {
            let stripped = strip_prefix_all_chars(&t, &key);
            let name = trim_chars(&stripped, CharClass::Just('"'));
            return Some(string_of(&name));
        }
        i += 1;
    }
    None
}

/// The path in which the file name of a URL is looked for: the path
/// component where the text is a URL, else the text itself.
pub open spec fn url_path_or_text(url: Seq<char>) -> Seq<char> {
    match url_parse(url) {
        Some(parsed) => parsed.1,
        None => url,
    }
}

/// The final path segment of a URL, if it has one.
pub fn extract_filename_from_url(url: &str) -> (r: Option<String>)
    ensures
        opt_text(r) == file_name(url_path_or_text(url@)),
{
    let path = match parse_url(url) {
        Ok(parsed) => chars_of(parsed.path.as_str()),
        Err(_) => chars_of(url),
    };
    match file_name_chars(&path) {
        Some(name) => Some(string_of(&name)),
        None => None,
    }
}

/// The file name under which the resource at `url` is stored when nothing
/// else names it: the final path segment, or else the BLAKE3 digest of the
/// URL in hexadecimal.
pub open spec fn fallback_filename(url: Seq<char>) -> Seq<char> {
    match file_name(url_path_or_text(url)) {
        Some(name) => name,
        None => blake3_hex(url),
    }
}

/// Names the file for `url` from the URL alone.
pub fn filename_for_url(url: &str) -> (r: String)
    ensures
        r@ == fallback_filename(url@),
{
    match extract_filename_from_url(url) {
        Some(name) => name,
        None => blake3_digest(url),
    }
}

/// `s` as it is compared: itself when case counts, else in lowercase.
pub open spec fn fold_case(s: Seq<char>, exact_case: bool) -> Seq<char> {
    if exact_case {
        s
    } else {
        lowercase(s)
    }
}

/// One comma-separated part of a keyword agrees with a name when the part,
/// trimmed, is empty or its presence in the name is as expected.
pub open spec fn part_agrees(folded_name: Seq<char>, part: Seq<char>, exact_case: bool, expect: bool) -> bool {
    let p = trim(part, CharClass::Space);
    p.len() == 0 || contains(folded_name, fold_case(p, exact_case)) == expect
}

/// A keyword agrees with a name when each of its parts does.
pub open spec fn keyword_agrees(
    folded_name: Seq<char>,
    keyword: Seq<char>,
    exact_case: bool,
    expect: bool,
) -> bool {
    forall|i: int|
        0 <= i < split(keyword, ',').len() ==> part_agrees(
            folded_name,
            #[trigger] split(keyword, ',')[i],
            exact_case,
            expect,
        )
}

/// A regular expression accepts a name when it is valid and matches it.
pub open spec fn regex_accepts(pattern: Seq<char>, name: Seq<char>) -> bool {
    regex_is_match(pattern, name) == Some(true)
}

/// The name filter: every regular expression matches, every glob matches,
/// every part of every inclusion keyword occurs in the name, and no part of
/// any exclusion keyword does.
pub open spec fn accepts(
    name: Seq<char>,
    regexes: Seq<Seq<char>>,
    globs: Seq<Seq<char>>,
    match_keywords: Seq<Seq<char>>,
    exclude_keywords: Seq<Seq<char>>,
    exact_case: bool,
) -> bool {
    &&& forall|i: int| 0 <= i < regexes.len() ==> regex_accepts(#[trigger] regexes[i], name)
    &&& forall|i: int| 0 <= i < globs.len() ==> glob_matches(#[trigger] globs[i], name)
    &&& forall|i: int|
        0 <= i < match_keywords.len() ==> keyword_agrees(
            fold_case(name, exact_case),
            #[trigger] match_keywords[i],
            exact_case,
            true,
        )
    &&& forall|i: int|
        0 <= i < exclude_keywords.len() ==> keyword_agrees(
            fold_case(name, exact_case),
            #[trigger] exclude_keywords[i],
            exact_case,
            false,
        )
}

/// The settings of the name filter, as texts.
pub struct Filter {
    pub regexes: Seq<Seq<char>>,
    pub globs: Seq<Seq<char>>,
    pub match_keywords: Seq<Seq<char>>,
    pub exclude_keywords: Seq<Seq<char>>,
    pub exact_case: bool,
}

impl Filter {
    /// Whether `name` passes the filter.
    pub open spec fn passes(self, name: Seq<char>) -> bool {
        accepts(
            name,
            self.regexes,
            self.globs,
            self.match_keywords,
            self.exclude_keywords,
            self.exact_case,
        )
    }
}

/// Checks one keyword against a name that is already folded.
fn check_keyword(folded_name: &Vec<char>, keyword: &str, exact_case: bool, expect: bool) -> (r:
    bool)
    ensures
        r == keyword_agrees(folded_name@, keyword@, exact_case, expect),
{
    let word = chars_of(keyword);
    let parts = split_chars(&word, ',');
    let ghost all = views(parts@);
    let mut i: usize = 0;
    while i < parts.len()
        invariant
            i <= parts.len(),
            all == views(parts@),
            all == split(keyword@, ','),
            forall|j: int| 0 <= j < i ==> part_agrees(folded_name@, #[trigger] all[j], exact_case, expect),
        decreases parts.len() - i,
    {
        let part = trim_chars(&parts[i], CharClass::Space);
        assert(all[i as int] == parts@[i as int]@);
        if part.len() > 0 {
            let folded = if exact_case {
                part
            } else {
                lowercase_chars(&part)
            };
            if contains_chars(folded_name, &folded) != expect {
                return false;
            }
        }
        i += 1;
    }
    true
}

/// Whether `name` passes the filter.
pub fn matches_pattern(
    name: &str,
    regexes: &[String],
    globs: &[String],
    match_keywords: &[String],
    exclude_keywords: &[String],
    exact_case: bool,
) -> (r: bool)
    ensures
        r == accepts(
            name@,
            texts(regexes@),
            texts(globs@),
            texts(match_keywords@),
            texts(exclude_keywords@),
            exact_case,
        ),
{
    let mut i: usize = 0;
    while i < regexes.len()
        invariant
            i <= regexes.len(),
            forall|j: int| 0 <= j < i ==> regex_accepts(#[trigger] texts(regexes@)[j], name@),
        decreases regexes.len() - i,
    {
        assert(texts(regexes@)[i as int] == regexes@[i as int]@);
        match regex_match(regexes[i].as_str(), name) {
            Some(true) => {},
            _ => {
                return false;
            },
        }
        i += 1;
    }
    let mut i: usize = 0;
    while i < globs.len()
        invariant
            i <= globs.len(),
            forall|j: int| 0 <= j < i ==> glob_matches(#[trigger] texts(globs@)[j], name@),
        decreases globs.len() - i,
    {
        assert(texts(globs@)[i as int] == globs@[i as int]@);
        if !glob_match(globs[i].as_str(), name) {
            return false;
        }
        i += 1;
    }
    let plain = chars_of(name);
    let folded = if exact_case {
        plain
    } else {
        lowercase_chars(&plain)
    };
    let mut i: usize = 0;
    while i < match_keywords.len()
        invariant
            i <= match_keywords.len(),
            folded@ == fold_case(name@, exact_case),
            forall|j: int|
                0 <= j < i ==> keyword_agrees(
                    folded@,
                    #[trigger] texts(match_keywords@)[j],
                    exact_case,
                    true,
                ),
        decreases match_keywords.len() - i,
    {
        assert(texts(match_keywords@)[i as int] == match_keywords@[i as int]@);
        if !check_keyword(&folded, match_keywords[i].as_str(), exact_case, true) {
            return false;
        }
        i += 1;
    }
    let mut i: usize = 0;
    while i < exclude_keywords.len()
        invariant
            i <= exclude_keywords.len(),
            folded@ == fold_case(name@, exact_case),
            forall|j: int|
                0 <= j < i ==> keyword_agrees(
                    folded@,
                    #[trigger] texts(exclude_keywords@)[j],
                    exact_case,
                    false,
                ),
        decreases exclude_keywords.len() - i,
    {
        assert(texts(exclude_keywords@)[i as int] == exclude_keywords@[i as int]@);
        if !check_keyword(&folded, exclude_keywords[i].as_str(), exact_case, false) {
            return false;
        }
        i += 1;
    }
    true
}

/// Adding an exclusion keyword can only shrink the set of accepted names.
pub proof fn lemma_exclusion_shrinks(
    name: Seq<char>,
    regexes: Seq<Seq<char>>,
    globs: Seq<Seq<char>>,
    match_keywords: Seq<Seq<char>>,
    exclude_keywords: Seq<Seq<char>>,
    keyword: Seq<char>,
    exact_case: bool,
)
    requires
        accepts(name, regexes, globs, match_keywords, exclude_keywords.push(keyword), exact_case),
    ensures
        accepts(name, regexes, globs, match_keywords, exclude_keywords, exact_case),
{
    let more = exclude_keywords.push(keyword);
    assert forall|i: int| 0 <= i < exclude_keywords.len() implies keyword_agrees(
        fold_case(name, exact_case),
        #[trigger] exclude_keywords[i],
        exact_case,
        false,
    ) by {
        assert(more[i] == exclude_keywords[i]);
    }
}

/// Removing a regular expression can only grow the set of accepted names.
pub proof fn lemma_fewer_regexes_grow(
    name: Seq<char>,
    regexes: Seq<Seq<char>>,
    globs: Seq<Seq<char>>,
    match_keywords: Seq<Seq<char>>,
    exclude_keywords: Seq<Seq<char>>,
    exact_case: bool,
    removed: int,
)
    requires
        0 <= removed < regexes.len(),
        accepts(name, regexes, globs, match_keywords, exclude_keywords, exact_case),
    ensures
        accepts(name, regexes.remove(removed), globs, match_keywords, exclude_keywords, exact_case),
{
    let fewer = regexes.remove(removed);
    assert forall|i: int| 0 <= i < fewer.len() implies regex_accepts(#[trigger] fewer[i], name) by {
        if i < removed {
            assert(fewer[i] == regexes[i]);
        } else {
            assert(fewer[i] == regexes[i + 1]);
        }
    }
}

/// Removing a glob can only grow the set of accepted names.
pub proof fn lemma_fewer_globs_grow(
    name: Seq<char>,
    regexes: Seq<Seq<char>>,
    globs: Seq<Seq<char>>,
    match_keywords: Seq<Seq<char>>,
    exclude_keywords: Seq<Seq<char>>,
    exact_case: bool,
    removed: int,
)
    requires
        0 <= removed < globs.len(),
        accepts(name, regexes, globs, match_keywords, exclude_keywords, exact_case),
    ensures
        accepts(name, regexes, globs.remove(removed), match_keywords, exclude_keywords, exact_case),
{
    let fewer = globs.remove(removed);
    assert forall|i: int| 0 <= i < fewer.len() implies glob_matches(#[trigger] fewer[i], name) by {
        if i < removed {
            assert(fewer[i] == globs[i]);
        } else {
            assert(fewer[i] == globs[i + 1]);
        }
    }
}

/// The value of a hexadecimal digit, if `c` is one.
pub open spec fn hex_value(c: char) -> Option<nat> {
    if '0' <= c <= '9' {
        Some((c as u32 - '0' as u32) as nat)
    } else if 'a' <= c <= 'f' {
        Some((c as u32 - 'a' as u32 + 10) as nat)
    } else if 'A' <= c <= 'F' {
        Some((c as u32 - 'A' as u32 + 10) as nat)
    } else {
        None
    }
}

/// A percent escape, `%` and two hexadecimal digits, stands at index `i`.
pub open spec fn is_escape_at(s: Seq<char>, i: int) -> bool {
    &&& 0 <= i
    &&& i + 2 < s.len()
    &&& s[i] == '%'
    &&& hex_value(s[i + 1]) is Some
    &&& hex_value(s[i + 2]) is Some
}

/// The byte that the escape at index `i` denotes.
pub open spec fn escape_byte(s: Seq<char>, i: int) -> u8 {
    (hex_value(s[i + 1])->0 * 16 + hex_value(s[i + 2])->0) as u8
}

/// The bytes of the longest run of escapes that begins at index `i`.
pub open spec fn escape_run(s: Seq<char>, i: int) -> Seq<u8>
    decreases s.len() - i,
{
    if is_escape_at(s, i) {
        seq![escape_byte(s, i)] + escape_run(s, i + 3)
    } else {
        Seq::empty()
    }
}

/// `s` from index `i` on, with each longest run of percent escapes
/// replaced by the text that its bytes decode to, invalid UTF-8 becoming
/// U+FFFD.
pub open spec fn decoded_from(s: Seq<char>, i: int) -> Seq<char>
    decreases s.len() - i,
{
    if i < 0 || i >= s.len() {
        Seq::empty()
    } else if is_escape_at(s, i) {
        let run = escape_run(s, i);
        let next = i + 3 * run.len();
        if i < next <= s.len() {
            utf8_lossy(run) + decoded_from(s, next)
        } else {
            Seq::empty()
        }
    } else {
        seq![s[i]] + decoded_from(s, i + 1)
    }
}

/// `s` with its percent escapes decoded.
pub open spec fn uri_decoded(s: Seq<char>) -> Seq<char> {
    decoded_from(s, 0)
}

/// Reads one hexadecimal digit.
fn read_hex(c: char) -> (r: Option<u8>)
    ensures
        match r {
            Some(v) => hex_value(c) == Some(v as nat) && v < 16,
            None => hex_value(c) is None,
        },
{
    if '0' <= c && c <= '9' {
        Some((c as u32 - '0' as u32) as u8)
    } else if 'a' <= c && c <= 'f' {
        Some((c as u32 - 'a' as u32 + 10) as u8)
    } else if 'A' <= c && c <= 'F' {
        Some((c as u32 - 'A' as u32 + 10) as u8)
    } else {
        None
    }
}

/// Reads the escape at index `i`, if one stands there.
fn read_escape(s: &Vec<char>, i: usize) -> (r: Option<u8>)
    requires
        i <= s.len(),
    ensures
        match r {
            Some(b) => is_escape_at(s@, i as int) && b == escape_byte(s@, i as int),
            None => !is_escape_at(s@, i as int),
        },
{
    if s.len() - i <= 2 || s[i] != '%' {
        return None;
    }
    match (read_hex(s[i + 1]), read_hex(s[i + 2])) {
        (Some(high), Some(low)) => Some(high * 16 + low),
        _ => None,
    }
}

/// Decodes the percent escapes of `s`.
pub fn decode_uri(s: &str) -> (r: String)
    ensures
        r@ == uri_decoded(s@),
{
    let text = chars_of(s);
    let mut out: Vec<char> = Vec::new();
    let mut i: usize = 0;
    while i < text.len()
        invariant
            i <= text.len(),
            text@ == s@,
            uri_decoded(s@) == out@ + decoded_from(text@, i as int),
        decreases text.len() - i,
    {
        match read_escape(&text, i) {
            Some(first) => {
                let mut bytes: Vec<u8> = Vec::new();
                bytes.push(first);
                let mut j: usize = i + 3;
                assert(escape_run(text@, i as int) == bytes@ + escape_run(text@, j as int));
                loop
                    invariant_except_break
                        i < j <= text.len(),
                        j - i == 3 * bytes.len(),
                        escape_run(text@, i as int) == bytes@ + escape_run(text@, j as int),
                    ensures
                        i < j <= text.len(),
                        j - i == 3 * bytes.len(),
                        escape_run(text@, i as int) == bytes@,
                    decreases text.len() - j,
                {
                    match read_escape(&text, j) {
                        Some(b) => {
                            let ghost before = bytes@;
                            bytes.push(b);
                            assert(bytes@ + escape_run(text@, j + 3) == before + (seq![b]
                                + escape_run(text@, j + 3)));
                            j += 3;
                        },
                        None => {
                            assert(bytes@ + Seq::<u8>::empty() == bytes@);
                            break ;
                        },
                    }
                }
                let decoded = decode_utf8_lossy(&bytes);
                let piece = chars_of(decoded.as_str());
                let ghost before = out@;
                append(&mut out, &piece);
                assert(before + (piece@ + decoded_from(text@, j as int)) == out@ + decoded_from(
                    text@,
                    j as int,
                ));
                i = j;
            },
            None => {
                let ghost before = out@;
                out.push(text[i]);
                assert(before + (seq![text@[i as int]] + decoded_from(text@, i + 1)) == out@
                    + decoded_from(text@, i + 1));
                i += 1;
            },
        }
    }
    assert(out@ + Seq::<char>::empty() == out@);
    string_of(&out)
}

/// `path` made absolute against the directory `current_dir`: a rooted path
/// stands for itself.
pub fn build_absolute_path(path: &str, current_dir: &str) -> (r: String)
    ensures
        r@ == join(current_dir@, path@),
{
    let p = chars_of(path);
    let d = chars_of(current_dir);
    string_of(&join_chars(&d, &p))
}

} // verus!
