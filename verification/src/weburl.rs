//! What the gateway relies on from the `url` crate.
//!
//! A `Url` is opaque here. Each of its components is named by a function of
//! the `Url` value, and the contracts below say how parsing and the two
//! setters act on those components. Nothing in this file is proved: every
//! contract restates what the `url` crate does.
//!
//! The components are functions of the `Url` and not of its serialization:
//! two URLs with one serialization can differ in a component. Setting the
//! path `//h/x` on `custom:/y` gives `custom://h/x` without a host, while
//! parsing that text gives a URL whose host is `h`.

use crate::escape::query_encode;
use url::ParseError;
use url::Url;
use vstd::prelude::*;
use vstd::utf8::encode_utf8;

verus! {

/// `url::Url`, carried through as an opaque value.
#[verifier::external_type_specification]
#[verifier::external_body]
pub struct ExUrl(url::Url);

/// `url::ParseError`, carried through as an opaque value.
#[verifier::external_type_specification]
#[verifier::external_body]
pub struct ExParseError(url::ParseError);

/// The serialization that `Url::as_str` returns.
pub uninterp spec fn url_text(u: Url) -> Seq<char>;

/// The serialization of the URL that `Url::parse` builds from `input`, or
/// `None` where it returns an error.
pub uninterp spec fn parsed_text(input: Seq<char>) -> Option<Seq<char>>;

/// What `Url::scheme` returns.
pub uninterp spec fn url_scheme(u: Url) -> Seq<char>;

/// What `Url::username` returns.
pub uninterp spec fn url_username(u: Url) -> Seq<char>;

/// What `Url::password` returns.
pub uninterp spec fn url_password(u: Url) -> Option<Seq<char>>;

/// What `Url::host_str` returns.
pub uninterp spec fn url_host(u: Url) -> Option<Seq<char>>;

/// What `Url::port` returns.
pub uninterp spec fn url_port(u: Url) -> Option<u16>;

/// What `Url::path` returns.
pub uninterp spec fn url_path(u: Url) -> Seq<char>;

/// What `Url::query` returns.
pub uninterp spec fn url_query(u: Url) -> Option<Seq<char>>;

/// What `Url::fragment` returns.
pub uninterp spec fn url_fragment(u: Url) -> Option<Seq<char>>;

/// What `Url::cannot_be_a_base` returns.
pub uninterp spec fn url_cannot_be_a_base(u: Url) -> bool;

/// The schemes for which the `url` crate applies the rules of special URLs.
pub open spec fn is_special_scheme(scheme: Seq<char>) -> bool {
    ||| scheme == "http"@
    ||| scheme == "https"@
    ||| scheme == "ws"@
    ||| scheme == "wss"@
    ||| scheme == "ftp"@
    ||| scheme == "file"@
}

/// A character that the path parser copies as it is and that takes part in
/// no dot segment, drive letter or escape.
pub open spec fn is_plain_path_char(c: char) -> bool {
    ||| 'a' <= c <= 'z'
    ||| 'A' <= c <= 'Z'
    ||| '0' <= c <= '9'
    ||| c == '-'
    ||| c == '_'
    ||| c == '/'
}

/// An absolute path of plain characters with no empty segment inside it.
pub open spec fn is_plain_path(p: Seq<char>) -> bool {
    &&& p.len() > 0
    &&& p[0] == '/'
    &&& forall|i: int| 0 <= i < p.len() ==> is_plain_path_char(#[trigger] p[i])
    &&& forall|i: int| 0 < i < p.len() && p[i - 1] == '/' ==> #[trigger] p[i] != '/'
}

/// The path that `Url::set_path` leaves in a URL for a plain path `p`: `p`
/// itself, or with its leading slash escaped in a URL that cannot be a base.
pub open spec fn plain_path_in(cannot_be_a_base: bool, p: Seq<char>) -> Seq<char> {
    if cannot_be_a_base {
        "%2F"@ + p.skip(1)
    } else {
        p
    }
}

/// What follows the path in a serialization: the query behind a question
/// mark, if there is one, and the fragment behind a hash, if there is one.
pub open spec fn url_tail(u: Url) -> Seq<char> {
    (match url_query(u) {
        Some(q) => seq!['?'] + q,
        None => Seq::empty(),
    }) + (match url_fragment(u) {
        Some(f) => seq!['#'] + f,
        None => Seq::empty(),
    })
}

/// What stands before the path in a serialization: the serialization
/// without as many characters as the path and what follows it take.
pub open spec fn url_head(u: Url) -> Seq<char> {
    let text = url_text(u);
    text.take(text.len() - url_path(u).len() - url_tail(u).len())
}

/// True when two URLs agree in every component but path and query.
pub open spec fn same_but_path_and_query(a: Url, b: Url) -> bool {
    &&& url_scheme(a) == url_scheme(b)
    &&& url_username(a) == url_username(b)
    &&& url_password(a) == url_password(b)
    &&& url_host(a) == url_host(b)
    &&& url_port(a) == url_port(b)
    &&& url_fragment(a) == url_fragment(b)
    &&& url_cannot_be_a_base(a) == url_cannot_be_a_base(b)
}

/// `Url::parse` succeeds exactly where [`parsed_text`] says so, and the URL
/// it returns has that serialization.
pub assume_specification[ Url::parse ](input: &str) -> (r: Result<Url, ParseError>)
    ensures
        r is Ok <==> parsed_text(input@) is Some,
        r matches Ok(u) ==> parsed_text(input@) == Some(url_text(u)),
;

/// `Url::as_str` returns the serialization.
pub assume_specification[ Url::as_str ](u: &Url) -> (r: &str)
    ensures
        r@ == url_text(*u),
;

/// `Url::scheme` returns the scheme.
pub assume_specification[ Url::scheme ](u: &Url) -> (r: &str)
    ensures
        r@ == url_scheme(*u),
;

/// `Url::host_str` returns the host, if the URL has one.
pub assume_specification[ Url::host_str ](u: &Url) -> (r: Option<&str>)
    ensures
        r is Some <==> url_host(*u) is Some,
        r matches Some(h) ==> url_host(*u) == Some(h@),
;

/// `Url::username` returns the username.
pub assume_specification[ Url::username ](u: &Url) -> (r: &str)
    ensures
        r@ == url_username(*u),
;

/// `Url::password` returns the password, if the URL has one.
pub assume_specification[ Url::password ](u: &Url) -> (r: Option<&str>)
    ensures
        r is Some <==> url_password(*u) is Some,
        r matches Some(p) ==> url_password(*u) == Some(p@),
;

/// `Url::path` returns the path.
pub assume_specification[ Url::path ](u: &Url) -> (r: &str)
    ensures
        r@ == url_path(*u),
;

/// `Url::query` returns the query, if the URL has one.
pub assume_specification[ Url::query ](u: &Url) -> (r: Option<&str>)
    ensures
        r is Some <==> url_query(*u) is Some,
        r matches Some(q) ==> url_query(*u) == Some(q@),
;

/// `Url::fragment` returns the fragment, if the URL has one.
pub assume_specification[ Url::fragment ](u: &Url) -> (r: Option<&str>)
    ensures
        r is Some <==> url_fragment(*u) is Some,
        r matches Some(f) ==> url_fragment(*u) == Some(f@),
;

/// `Url::cannot_be_a_base` tells whether the URL cannot be a base.
pub assume_specification[ Url::cannot_be_a_base ](u: &Url) -> (r: bool)
    ensures
        r == url_cannot_be_a_base(*u),
;

/// `Url::port` returns the port, if the serialization holds one.
pub assume_specification[ Url::port ](u: &Url) -> (r: Option<u16>)
    ensures
        r == url_port(*u),
;

/// The clone of a `Url` is the same URL.
pub assume_specification[ <Url as Clone>::clone ](u: &Url) -> (r: Url)
    ensures
        r == *u,
;

/// `Url::set_path` replaces the path and leaves scheme, username,
/// password, host, port, query and fragment as they were. For a plain
/// path more is known: it is stored as given, but for its leading slash,
/// which is escaped in a URL that cannot be a base; whether the URL can be
/// a base stays as it was; and the serialization is what stood before the
/// old path, the new path, and what followed the old one. Each byte of a
/// path adds at most three to the serialization, which must stay within
/// `u32`.
pub assume_specification[ Url::set_path ](u: &mut Url, path: &str)
    requires
        encode_utf8(url_text(*old(u))).len() + 3 * encode_utf8(path@).len() + 1 <= u32::MAX,
    ensures
        url_scheme(*final(u)) == url_scheme(*old(u)),
        url_username(*final(u)) == url_username(*old(u)),
        url_password(*final(u)) == url_password(*old(u)),
        url_host(*final(u)) == url_host(*old(u)),
        url_port(*final(u)) == url_port(*old(u)),
        url_fragment(*final(u)) == url_fragment(*old(u)),
        url_query(*final(u)) == url_query(*old(u)),
        encode_utf8(url_text(*final(u))).len() <= encode_utf8(url_text(*old(u))).len() + 3
            * encode_utf8(path@).len() + 1,
        is_plain_path(path@) ==> url_cannot_be_a_base(*final(u)) == url_cannot_be_a_base(
            *old(u),
        ),
        is_plain_path(path@) ==> url_path(*final(u)) == plain_path_in(
            url_cannot_be_a_base(*old(u)),
            path@,
        ),
        is_plain_path(path@) ==> url_text(*final(u)) == url_head(*old(u)) + url_path(*final(u))
            + url_tail(*old(u)),
;

/// `Url::set_query` with a query replaces the query and leaves every other
/// component as it was. The query is stored without its tabs and newlines
/// and escaped with the query set of the URL's scheme, and the
/// serialization is what stood before the old query, a question mark, the
/// stored query, and the fragment as before. Without a query, the URL has
/// none afterwards. The serialization must stay within `u32`, whatever has
/// to be escaped.
pub assume_specification[ Url::set_query ](u: &mut Url, query: Option<&str>)
    requires
        query matches Some(q) ==> encode_utf8(url_text(*old(u))).len() + 3 * encode_utf8(
            q@,
        ).len() + 1 <= u32::MAX,
    ensures
        url_scheme(*final(u)) == url_scheme(*old(u)),
        url_username(*final(u)) == url_username(*old(u)),
        url_password(*final(u)) == url_password(*old(u)),
        url_host(*final(u)) == url_host(*old(u)),
        url_port(*final(u)) == url_port(*old(u)),
        url_fragment(*final(u)) == url_fragment(*old(u)),
        url_cannot_be_a_base(*final(u)) == url_cannot_be_a_base(*old(u)),
        query matches Some(q) ==> url_path(*final(u)) == url_path(*old(u)),
        query matches Some(q) ==> url_query(*final(u)) == Some(
            query_encode(q@, is_special_scheme(url_scheme(*old(u)))),
        ),
        query matches Some(q) ==> url_text(*final(u)) == url_head(*old(u)) + url_path(*old(u))
            + url_tail(*final(u)),
        query is None ==> url_query(*final(u)) is None,
;

} // verus!
