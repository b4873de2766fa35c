//! URLs held as their serialization, changed by the `url` crate.
//!
//! Every operation parses the text it is given, applies one operation of `url::Url`, and
//! hands back the new serialization; the names below are keyed by the text parsed.
use vstd::prelude::*;
use crate::text::{same_text, views};

verus! {

/// The serialization of the URL that `url::Url::parse` makes of `input`, or `None` where
/// it refuses `input`.
pub uninterp spec fn url_parse(input: Seq<char>) -> Option<Seq<char>>;

/// The text (`Display`) of the `url::ParseError` that `url::Url::parse` gives for `input`
/// where it refuses it.
pub uninterp spec fn url_parse_error(input: Seq<char>) -> Seq<char>;

/// `url::Url::cannot_be_a_base` of the URL that `url::Url::parse` makes of `url`.
pub uninterp spec fn url_cannot_be_a_base(url: Seq<char>) -> bool;

/// `url::Url::path_segments` of the URL that `url::Url::parse` makes of `url`.
pub uninterp spec fn url_path_segments(url: Seq<char>) -> Option<Seq<Seq<char>>>;

/// `url::Url::path` of the URL that `url::Url::parse` makes of `url`.
pub uninterp spec fn url_path_text(url: Seq<char>) -> Seq<char>;

/// The serialization after `path_segments_mut().extend(segments)` on the URL that
/// `url::Url::parse` makes of `url`.
pub uninterp spec fn url_extended(url: Seq<char>, segments: Seq<Seq<char>>) -> Seq<char>;

/// The serialization after `set_path(path)` on the URL that `url::Url::parse` makes of
/// `url`.
pub uninterp spec fn url_with_path(url: Seq<char>, path: Seq<char>) -> Seq<char>;

/// The serialization after `query_pairs_mut().append_pair(key, value)` on the URL that
/// `url::Url::parse` makes of `url`.
pub uninterp spec fn url_pair_appended(url: Seq<char>, key: Seq<char>, value: Seq<char>) -> Seq<
    char,
>;

/// `url::Url::host_str` of the URL that `url::Url::parse` makes of `url`.
pub uninterp spec fn url_host(url: Seq<char>) -> Option<Seq<char>>;

/// Whether `s` parses as a URL whose path can take segments.
pub open spec fn is_base_url(s: Seq<char>) -> bool {
    url_parse(s) is Some && !url_cannot_be_a_base(s)
}

/// Whether `s` is the serialization of a URL that parses back to `s` itself.
pub open spec fn reparses(s: Seq<char>) -> bool {
    url_parse(s) == Some(s)
}

/// `v` where it parses back to itself, `None` otherwise.
pub open spec fn reparsed(v: Seq<char>) -> Option<Seq<char>> {
    if reparses(v) {
        Some(v)
    } else {
        None
    }
}

/// Whether `s` is the serialization of a URL that parses back to `s` itself, and whose path
/// can take segments.
pub open spec fn settled_url(s: Seq<char>) -> bool {
    reparses(s) && !url_cannot_be_a_base(s)
}

/// `v` where it is a settled URL (see `settled_url`), `None` otherwise.
pub open spec fn settled(v: Seq<char>) -> Option<Seq<char>> {
    if settled_url(v) {
        Some(v)
    } else {
        None
    }
}

/// `v`, where parsing it gives `v` back; `None` otherwise.
pub fn reparse(v: String) -> (r: Option<String>)
    ensures
        opt_view(r) == reparsed(v@),
{
    match parse_url(v.as_str()) {
        Ok(p) => {
            if same_text(p.as_str(), v.as_str()) {
                Some(v)
            } else {
                None
            }
        },
        Err(_) => None,
    }
}

/// `v`, where parsing it gives `v` back, to a URL whose path can take segments; `None`
/// otherwise.
pub fn settle(v: String) -> (r: Option<String>)
    ensures
        opt_view(r) == settled(v@),
{
    match reparse(v) {
        Some(v) => {
            if cannot_be_a_base(v.as_str()) {
                None
            } else {
                Some(v)
            }
        },
        None => None,
    }
}

/// The view of an optional string.
pub open spec fn opt_view(o: Option<String>) -> Option<Seq<char>> {
    match o {
        Some(s) => Some(s@),
        None => None,
    }
}

/// `url::Url::parse`: the serialization of the parsed URL, or the text of the error where
/// `input` is not an absolute URL. Nothing is claimed of parsing that serialization again.
#[verifier::external_body]
pub(crate) fn parse_url(input: &str) -> (r: Result<String, String>)
    ensures
        r is Ok <==> url_parse(input@) is Some,
        r matches Ok(u) ==> Some(u@) == url_parse(input@),
        r matches Err(e) ==> e@ == url_parse_error(input@),
{
    match url::Url::parse(input) {
        Ok(u) => Ok(u.to_string()),
        Err(e) => Err(e.to_string()),
    }
}

/// `url::Url::cannot_be_a_base`: whether the scheme's `:` is not followed by `/`.
#[verifier::external_body]
pub(crate) fn cannot_be_a_base(url: &str) -> (r: bool)
    requires
        url_parse(url@) is Some,
    ensures
        r == url_cannot_be_a_base(url@),
{
    url::Url::parse(url).expect("a parsed URL").cannot_be_a_base()
}

/// `url::Url::path_segments`: the percent-encoded path segments; `None` for a URL that
/// cannot be a base, and also for one whose path is empty (`foo://x`); when there are
/// segments there is at least one (documented).
#[verifier::external_body]
pub(crate) fn path_segments(url: &str) -> (r: Option<Vec<String>>)
    requires
        url_parse(url@) is Some,
    ensures
        r matches Some(v) ==> url_path_segments(url@) == Some(views(v@)) && v@.len() >= 1,
        r is None ==> url_path_segments(url@) is None,
        url_cannot_be_a_base(url@) ==> r is None,
{
    let u = url::Url::parse(url).expect("a parsed URL");
    match u.path_segments() {
        Some(segments) => Some(segments.map(|s| s.to_string()).collect()),
        None => None,
    }
}

/// `url::Url::path`: the percent-encoded path.
#[verifier::external_body]
pub(crate) fn path_text(url: &str) -> (r: String)
    requires
        url_parse(url@) is Some,
    ensures
        r@ == url_path_text(url@),
{
    url::Url::parse(url).expect("a parsed URL").path().to_string()
}

/// `PathSegmentsMut::extend`: appends `segments`, percent-encoded, to the path. Nothing
/// more is claimed of the result; its callers test it.
#[verifier::external_body]
pub(crate) fn extend_path(url: &str, segments: &Vec<String>) -> (r: String)
    requires
        is_base_url(url@),
    ensures
        r@ == url_extended(url@, views(segments@)),
{
    let mut u = url::Url::parse(url).expect("a parsed URL");
    u.path_segments_mut().expect("a base URL").extend(segments.iter());
    u.to_string()
}

/// `url::Url::set_path`: the URL with its path replaced by `path`, which is
/// percent-encoded where it is not already. Nothing is claimed of the result; its callers
/// test it.
#[verifier::external_body]
pub(crate) fn with_path(url: &str, path: &str) -> (r: String)
    requires
        url_parse(url@) is Some,
    ensures
        r@ == url_with_path(url@, path@),
{
    let mut u = url::Url::parse(url).expect("a parsed URL");
    u.set_path(path);
    u.to_string()
}

/// `form_urlencoded::Serializer::append_pair` on `Url::query_pairs_mut`: appends
/// `key=value`, form-encoded, to the query. Nothing more is claimed of the result; its
/// callers test it.
#[verifier::external_body]
pub(crate) fn append_query_pair(url: &str, key: &str, value: &str) -> (r: String)
    requires
        url_parse(url@) is Some,
    ensures
        r@ == url_pair_appended(url@, key@, value@),
{
    let mut u = url::Url::parse(url).expect("a parsed URL");
    u.query_pairs_mut().append_pair(key, value);
    u.to_string()
}

/// `url::Url::host_str`: the host, if the URL has one.
#[verifier::external_body]
pub(crate) fn host_str(url: &str) -> (r: Option<String>)
    requires
        url_parse(url@) is Some,
    ensures
        opt_view(r) == url_host(url@),
{
    let u = url::Url::parse(url).expect("a parsed URL");
    match u.host_str() {
        Some(h) => Some(h.to_string()),
        None => None,
    }
}

} // verus!
