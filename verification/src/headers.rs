//! Request headers: what can be sent, how much room a map has, and the
//! headers that every request to a registry carries.
use crate::foreign::{
    ascii_lower, header_count, header_entries, header_insert, header_map_new, header_name_ok,
    header_names, header_value_ok, is_name_char, no_headers, HEADER_ROOM,
};
use crate::text::chars_of;
use reqwest::header::HeaderMap;
use vstd::prelude::*;
use vstd::utf8::encode_utf8;

verus! {

/// Whether `name` can be sent as a header name.
pub fn is_header_name(name: &Vec<char>) -> (r: bool)
    ensures
        r == header_name_ok(name@),
{
    if name.len() < 1 || name.len() > 65535 {
        return false;
    }
    let mut i: usize = 0;
    while i < name.len()
        invariant
            i <= name.len(),
            forall|j: int| 0 <= j < i ==> is_name_char(#[trigger] name@[j]),
        decreases name.len() - i,
    {
        let c = name[i];
        let ok = ('a' <= c && c <= 'z') || ('A' <= c && c <= 'Z') || ('0' <= c && c <= '9') || c
            == '!' || c == '#' || c == '$' || c == '%' || c == '&' || c == '\'' || c == '*' || c
            == '+' || c == '-' || c == '.' || c == '^' || c == '_' || c == '`' || c == '|' || c
            == '~';
        if !ok {
            return false;
        }
        i += 1;
    }
    true
}

/// Whether `value` can be sent as a header value.
pub fn is_header_value(value: &str) -> (r: bool)
    ensures
        r == header_value_ok(value@),
{
    let v = chars_of(value);
    let mut i: usize = 0;
    while i < v.len()
        invariant
            i <= v.len(),
            v@ == value@,
            forall|j: int|
                0 <= j < i ==> {
                    let c = #[trigger] v@[j];
                    c == '\t' || (c >= ' ' && c != '\u{7f}')
                },
        decreases v.len() - i,
    {
        let c = v[i];
        if !(c == '\t' || (c >= ' ' && c != '\u{7f}')) {
            return false;
        }
        i += 1;
    }
    true
}

/// A map that holds no header.
pub fn empty_headers() -> (headers: HeaderMap)
    ensures
        header_entries(headers) == no_headers(),
        header_names(headers) == 0,
{
    header_map_new()
}

/// Whether `headers` has room for `more` names: with them it stays within
/// what a map surely takes.
pub fn has_room(headers: &HeaderMap, more: usize) -> (r: bool)
    ensures
        r == (header_names(*headers) + more <= HEADER_ROOM),
{
    let held = header_count(headers);
    held <= HEADER_ROOM && more <= HEADER_ROOM - held
}

/// The media types that a registry is asked for.
pub open spec fn oci_accept() -> Seq<char> {
    "application/vnd.docker.distribution.manifest.v2+json, application/vnd.docker.distribution.manifest.list.v2+json, application/vnd.oci.image.manifest.v1+json, application/vnd.oci.image.index.v1+json, application/vnd.oci.artifact.manifest.v1+json"@
}

/// The anonymous bearer token that public registries accept.
pub open spec fn oci_authorization() -> Seq<char> {
    "Bearer QQ=="@
}

/// The headers of every request to a registry.
pub open spec fn oci_entries() -> Map<Seq<char>, Seq<Seq<u8>>> {
    no_headers().insert("accept"@, seq![encode_utf8(oci_accept())]).insert(
        "authorization"@,
        seq![encode_utf8(oci_authorization())],
    )
}

/// Builds the headers of a request to a registry.
pub fn oci_request_headers() -> (headers: HeaderMap)
    ensures
        header_entries(headers) == oci_entries(),
        header_names(headers) <= 2,
{
    let mut headers = header_map_new();
    proof {
        reveal_strlit("accept");
        reveal_strlit("authorization");
        reveal_strlit("Bearer QQ==");
        reveal_strlit(
            "application/vnd.docker.distribution.manifest.v2+json, application/vnd.docker.distribution.manifest.list.v2+json, application/vnd.oci.image.manifest.v1+json, application/vnd.oci.image.index.v1+json, application/vnd.oci.artifact.manifest.v1+json",
        );
        assert(ascii_lower("accept"@) =~= "accept"@);
        assert(ascii_lower("authorization"@) =~= "authorization"@);
    }
    header_insert(
        &mut headers,
        "accept",
        "application/vnd.docker.distribution.manifest.v2+json, application/vnd.docker.distribution.manifest.list.v2+json, application/vnd.oci.image.manifest.v1+json, application/vnd.oci.image.index.v1+json, application/vnd.oci.artifact.manifest.v1+json",
    );
    header_insert(&mut headers, "authorization", "Bearer QQ==");
    headers
}

} // verus!
