//! The settings of the HTTP client.
use crate::foreign::{
    ascii_lower, header_entries, header_insert, header_map_new, header_name_ok, header_names,
    header_value_ok, no_headers, HEADER_ROOM,
};
use crate::headers::{is_header_name, is_header_value};
use crate::text::{chars_of, split_once, split_once_chars, string_of, trim, trim_chars, CharClass};
use crate::utils::texts;
use reqwest::header::HeaderMap;
use vstd::prelude::*;
use vstd::string::StringExecFns;
use vstd::utf8::encode_utf8;

verus! {

/// How the HTTP client is set up.
#[derive(Clone, Debug)]
pub struct ClientConfig {
    pub user_agent: Option<String>,
    pub headers: Option<HeaderMap>,
    pub proxy: Option<String>,
}

impl Default for ClientConfig {
    /// The client of a fresh process: it names itself `pkgforge/soar` and
    /// has neither extra headers nor a proxy.
    fn default() -> (config: ClientConfig)
        ensures
            config.user_agent matches Some(agent) && agent@ == "pkgforge/soar"@,
            config.headers is None,
            config.proxy is None,
    {
        ClientConfig {
            user_agent: Some(String::from_str("pkgforge/soar")),
            headers: None,
            proxy: None,
        }
    }
}

/// The header that one line of the form `name: value` sets: the line is
/// split at its first colon and both sides are trimmed. A line without a
/// colon, or with a name or a value that cannot be sent, sets none.
pub open spec fn header_line(line: Seq<char>) -> Option<(Seq<char>, Seq<char>)> {
    match split_once(line, ':') {
        Some(halves) => {
            let name = trim(halves.0, CharClass::Space);
            let value = trim(halves.1, CharClass::Space);
            if header_name_ok(name) && header_value_ok(value) {
                Some((ascii_lower(name), value))
            } else {
                None
            }
        },
        None => None,
    }
}

/// The headers that a list of lines sets; a later line wins over an
/// earlier one with the same name.
pub open spec fn headers_from(lines: Seq<Seq<char>>) -> Map<Seq<char>, Seq<Seq<u8>>>
    decreases lines.len(),
{
    if lines.len() == 0 {
        no_headers()
    } else {
        let rest = headers_from(lines.drop_last());
        match header_line(lines.last()) {
            Some(header) => rest.insert(header.0, seq![encode_utf8(header.1)]),
            None => rest,
        }
    }
}

/// Builds the headers that a list of `name: value` lines sets. Lines that
/// set none are passed over.
pub fn create_http_header_map(headers: Vec<String>) -> (map: HeaderMap)
    requires
        headers@.len() < HEADER_ROOM,
    ensures
        header_entries(map) == headers_from(texts(headers@)),
{
    let mut map = header_map_new();
    let ghost lines = texts(headers@);
    let mut i: usize = 0;
    assert(lines.take(0) =~= Seq::empty());
    while i < headers.len()
        invariant
            i <= headers.len(),
            headers@.len() < HEADER_ROOM,
            lines == texts(headers@),
            header_entries(map) == headers_from(lines.take(i as int)),
            header_names(map) <= i,
        decreases headers.len() - i,
    {
        proof {
            let next = lines.take(i + 1);
            assert(next.drop_last() == lines.take(i as int));
            assert(next.last() == headers@[i as int]@);
        }
        let line = chars_of(headers[i].as_str());
        match split_once_chars(&line, ':') {
            Some((left, right)) => {
                let name = trim_chars(&left, CharClass::Space);
                let value = string_of(&trim_chars(&right, CharClass::Space));
                if is_header_name(&name) && is_header_value(value.as_str()) {
                    header_insert(&mut map, string_of(&name).as_str(), value.as_str());
                }
            },
            None => {},
        }
        i += 1;
    }
    assert(lines.take(i as int) == lines);
    map
}

} // verus!
