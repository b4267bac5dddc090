//! The two addresses of the captcha service that the gateway derives from
//! the service's base URL.

use crate::escape::is_query_plain;
use crate::escape::lemma_query_encode_concat;
use crate::escape::lemma_query_encode_plain;
use crate::escape::lemma_utf8_concat;
use crate::escape::query_encode;
use crate::text::text_eq;
use crate::weburl::is_plain_path;
use crate::weburl::is_special_scheme;
use crate::weburl::plain_path_in;
use crate::weburl::same_but_path_and_query;
use crate::weburl::url_cannot_be_a_base;
use crate::weburl::url_fragment;
use crate::weburl::url_head;
use crate::weburl::url_host;
use crate::weburl::url_password;
use crate::weburl::url_path;
use crate::weburl::url_port;
use crate::weburl::url_query;
use crate::weburl::url_scheme;
use crate::weburl::url_tail;
use crate::weburl::url_text;
use crate::weburl::url_username;
use url::Url;
use vstd::prelude::*;
use vstd::string::StringExecFns;
use vstd::utf8::encode_utf8;
use vstd::utf8::is_ascii_chars;
use vstd::utf8::is_ascii_chars_encode_utf8;

verus! {

/// Why an endpoint could not be derived.
#[derive(Clone, Copy, Debug, PartialEq, Eq, Structural)]
pub enum EndpointError {
    /// The derived URL could exceed the length that a URL can have.
    TooLong,
}

/// The path under which the service verifies a token.
pub open spec fn verify_route() -> Seq<char> {
    "/api/v1/pow/siteverify"@
}

/// The path under which the service shows its widget.
pub open spec fn widget_route() -> Seq<char> {
    "/widget"@
}

/// The query of the widget for a site key, before the URL escapes it.
pub open spec fn widget_query(site_key: Seq<char>) -> Seq<char> {
    "sitekey="@ + site_key
}

/// The number of bytes of `s` in UTF-8.
pub open spec fn byte_len(s: Seq<char>) -> nat {
    encode_utf8(s).len()
}

/// True when a URL of `url_len` bytes can take `extra` more bytes, each of
/// them escaped, and a separator, and still be a URL.
pub open spec fn has_room(url_len: nat, extra: nat) -> bool {
    url_len + 3 * extra + 1 <= u32::MAX
}

/// True when the verification endpoint can be derived from `base`.
pub open spec fn verify_endpoint_fits(base: Url) -> bool {
    has_room(byte_len(url_text(base)), byte_len(verify_route()))
}

/// True when the widget endpoint for `site_key` can be derived from `base`.
pub open spec fn widget_endpoint_fits(base: Url, site_key: Seq<char>) -> bool {
    has_room(
        byte_len(url_text(base)) + 3 * byte_len(widget_route()) + 1,
        byte_len(widget_query(site_key)),
    )
}

/// True when `v` is the verification endpoint of the service at `base`:
/// the URL of `base` with the verification route as its path. Its
/// serialization is that of `base` with the new path in place of the old.
pub open spec fn is_verify_endpoint(v: Url, base: Url) -> bool {
    &&& same_but_path_and_query(v, base)
    &&& url_query(v) == url_query(base)
    &&& url_path(v) == plain_path_in(url_cannot_be_a_base(base), verify_route())
    &&& url_text(v) == url_head(base) + url_path(v) + url_tail(base)
}

/// True when `w` is the widget endpoint of the service at `base` for
/// `site_key`: the URL of `base` with the widget route as its path and the
/// escaped site key as its query. Its serialization is that of `base` up
/// to the path, then the new path, the new query and the old fragment.
pub open spec fn is_widget_endpoint(w: Url, base: Url, site_key: Seq<char>) -> bool {
    &&& same_but_path_and_query(w, base)
    &&& url_path(w) == plain_path_in(url_cannot_be_a_base(base), widget_route())
    &&& url_query(w) == Some(
        "sitekey="@ + query_encode(site_key, is_special_scheme(url_scheme(base))),
    )
    &&& url_text(w) == url_head(base) + url_path(w) + url_tail(w)
}

/// The two routes are plain paths, of 22 and 7 bytes.
pub proof fn lemma_routes_plain()
    ensures
        is_plain_path(verify_route()),
        is_plain_path(widget_route()),
        byte_len(verify_route()) == 22,
        byte_len(widget_route()) == 7,
{
    reveal_strlit("/api/v1/pow/siteverify");
    reveal_strlit("/widget");
    assert(is_ascii_chars(verify_route()));
    assert(is_ascii_chars(widget_route()));
    is_ascii_chars_encode_utf8(verify_route());
    is_ascii_chars_encode_utf8(widget_route());
}

/// Decides [`has_room`] without overflow.
fn room_for(url_len: usize, extra: usize) -> (r: bool)
    ensures
        r == has_room(url_len as nat, extra as nat),
{
    if extra > 0x5555_5554 || url_len > 0xffff_ffff {
        false
    } else {
        let need: u64 = 3 * (extra as u64) + 1;
        (url_len as u64) <= 0xffff_ffff - need
    }
}

/// The number of bytes in `s`.
fn bytes_in(s: &str) -> (n: usize)
    ensures
        n == byte_len(s@),
{
    s.as_bytes().len()
}

/// The verification endpoint of the service at `base`.
///
/// Fails only where the result could be too long for a URL.
pub fn derive_verify_endpoint(base: &Url) -> (r: Result<Url, EndpointError>)
    ensures
        r is Ok <==> verify_endpoint_fits(*base),
        r matches Ok(v) ==> is_verify_endpoint(v, *base),
{
    let route = "/api/v1/pow/siteverify";
    proof {
        lemma_routes_plain();
    }
    if !room_for(bytes_in(base.as_str()), bytes_in(route)) {
        return Err(EndpointError::TooLong);
    }
    let mut endpoint = base.clone();
    endpoint.set_path(route);
    Ok(endpoint)
}

/// The fixed head of the widget's query is stored as it is, so the stored
/// query is that head and the escaped site key, and its length before
/// escaping is eight bytes more than the site key's.
pub proof fn lemma_widget_query(site_key: Seq<char>, special: bool)
    ensures
        query_encode(widget_query(site_key), special) == "sitekey="@ + query_encode(
            site_key,
            special,
        ),
        byte_len(widget_query(site_key)) == 8 + byte_len(site_key),
{
    let head = "sitekey="@;
    reveal_strlit("sitekey=");
    assert forall|i: int| 0 <= i < head.len() implies is_query_plain(#[trigger] head[i], special) by {
    }
    lemma_query_encode_plain(head, special);
    lemma_query_encode_concat(head, site_key, special);
    assert(is_ascii_chars(head));
    is_ascii_chars_encode_utf8(head);
    lemma_utf8_concat(head, site_key);
}

/// The widget endpoint of the service at `base` for `site_key`.
///
/// Fails only where the result could be too long for a URL.
pub fn derive_widget_endpoint(base: &Url, site_key: &str) -> (r: Result<Url, EndpointError>)
    ensures
        r is Ok <==> widget_endpoint_fits(*base, site_key@),
        r matches Ok(w) ==> is_widget_endpoint(w, *base, site_key@),
{
    let route = "/widget";
    let mut query = String::from_str("sitekey=");
    query.append(site_key);
    proof {
        lemma_routes_plain();
        lemma_widget_query(site_key@, is_special_scheme(url_scheme(*base)));
    }
    let base_len = bytes_in(base.as_str());
    if !room_for(base_len, bytes_in(route)) {
        return Err(EndpointError::TooLong);
    }
    if !room_for(base_len + 3 * bytes_in(route) + 1, bytes_in(query.as_str())) {
        return Err(EndpointError::TooLong);
    }
    let mut endpoint = base.clone();
    endpoint.set_path(route);
    proof {
        let head = url_head(*base);
        let rest = url_path(endpoint) + url_tail(endpoint);
        assert(url_tail(endpoint) == url_tail(*base));
        assert(url_text(endpoint) =~= head + rest);
        assert((head + rest).take(head.len() as int) =~= head);
        assert(url_head(endpoint) == head);
    }
    endpoint.set_query(Some(query.as_str()));
    Ok(endpoint)
}

/// The components of a URL as plain values.
#[derive(Debug)]
pub struct UrlParts {
    pub scheme: String,
    pub username: String,
    pub password: Option<String>,
    pub host: Option<String>,
    pub port: Option<u16>,
    pub path: String,
    pub query: Option<String>,
    pub fragment: Option<String>,
    pub cannot_be_a_base: bool,
}

/// The text of an optional string.
pub open spec fn text_of(s: Option<String>) -> Option<Seq<char>> {
    match s {
        Some(t) => Some(t@),
        None => None,
    }
}

/// Copies an optional string.
fn owned(s: Option<&str>) -> (r: Option<String>)
    ensures
        text_of(r) == (match s {
            Some(t) => Some(t@),
            None => None,
        }),
{
    match s {
        Some(t) => Some(String::from_str(t)),
        None => None,
    }
}

/// Reads every component of a URL.
pub fn parts_of(u: &Url) -> (r: UrlParts)
    ensures
        r.scheme@ == url_scheme(*u),
        r.username@ == url_username(*u),
        text_of(r.password) == url_password(*u),
        text_of(r.host) == url_host(*u),
        r.port == url_port(*u),
        r.path@ == url_path(*u),
        text_of(r.query) == url_query(*u),
        text_of(r.fragment) == url_fragment(*u),
        r.cannot_be_a_base == url_cannot_be_a_base(*u),
{
    UrlParts {
        scheme: String::from_str(u.scheme()),
        username: String::from_str(u.username()),
        password: owned(u.password()),
        host: owned(u.host_str()),
        port: u.port(),
        path: String::from_str(u.path()),
        query: owned(u.query()),
        fragment: owned(u.fragment()),
        cannot_be_a_base: u.cannot_be_a_base(),
    }
}

/// True when two URLs have the same scheme, host and port.
pub open spec fn same_origin(a: Url, b: Url) -> bool {
    &&& url_scheme(a) == url_scheme(b)
    &&& url_host(a) == url_host(b)
    &&& url_port(a) == url_port(b)
}

/// Both endpoints of a service have the scheme, host and port of its base
/// URL, and so of each other.
pub proof fn lemma_endpoints_share_origin(v: Url, w: Url, base: Url, site_key: Seq<char>)
    requires
        is_verify_endpoint(v, base),
        is_widget_endpoint(w, base, site_key),
    ensures
        same_origin(v, base),
        same_origin(w, base),
        same_origin(v, w),
{
}

/// Compares two optional strings.
fn same_text(a: Option<&str>, b: Option<&str>) -> (r: bool)
    ensures
        r == (match (a, b) {
            (Some(x), Some(y)) => x@ == y@,
            (None, None) => true,
            _ => false,
        }),
{
    match (a, b) {
        (Some(x), Some(y)) => text_eq(x, y),
        (None, None) => true,
        _ => false,
    }
}

/// Tells whether two URLs have the same scheme, host and port.
pub fn share_origin(a: &Url, b: &Url) -> (r: bool)
    ensures
        r == same_origin(*a, *b),
{
    text_eq(a.scheme(), b.scheme()) && same_text(a.host_str(), b.host_str()) && a.port()
        == b.port()
}

} // verus!
