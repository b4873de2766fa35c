//! What an API operation sends: its method, where its URL is rooted, its path, custom
//! method and query; and the URL that a `URLBuilder` makes of it.
use vstd::prelude::*;
use vstd::string::*;
use crate::beyond_identity::api::common::url::{
    custom_method_url, then_extended, usable_base, URLBuilder, URLBuilderView,
};
use crate::text::views;
use crate::weburl::{opt_view, reparsed, url_pair_appended, url_parse};

verus! {

/// What `convert_case`'s `to_case` makes of `s`: with `Case::Kebab` where `kebab`, with
/// `Case::Camel` otherwise.
pub uninterp spec fn case_converted(s: Seq<char>, kebab: bool) -> Seq<char>;

/// `convert_case::Casing::to_case`: `s` in kebab case where `kebab`
/// (`credential_binding_jobs` becomes `credential-binding-jobs`), in camel case otherwise
/// (`add_members` becomes `addMembers`).
#[verifier::external_body]
pub(crate) fn convert_case(s: &str, kebab: bool) -> (r: String)
    ensures
        r@ == case_converted(s@, kebab),
{
    let case = if kebab {
        convert_case::Case::Kebab
    } else {
        convert_case::Case::Camel
    };
    convert_case::Casing::to_case(&s, case)
}

/// The HTTP method of a request.
#[derive(Clone, Copy, Debug, PartialEq, Eq, Structural)]
pub enum HttpMethod {
    Get,
    Post,
    Patch,
    Delete,
}

/// Where the path of a request starts: at the tenant (`/v1/tenants/<tenant>`), at the
/// configured realm (`.../realms/<realm>`), or at another realm of the tenant.
#[derive(Clone, Debug)]
pub enum Scope {
    Tenant,
    Realm,
    OtherRealm(String),
}

/// A request of the API: the method, the scope, the path segments after it, the custom
/// method appended to the last segment (`:addMembers`), one query parameter, and whether
/// the answer is a listing gathered page by page.
#[derive(Clone, Debug)]
pub struct ApiCall {
    pub method: HttpMethod,
    pub scope: Scope,
    pub segments: Vec<String>,
    pub custom_method: Option<String>,
    pub query: Option<(String, String)>,
    pub paginated: bool,
}

/// A scope with its realm as characters.
pub enum ScopeView {
    Tenant,
    Realm,
    OtherRealm(Seq<char>),
}

impl View for Scope {
    type V = ScopeView;

    open spec fn view(&self) -> ScopeView {
        match self {
            Scope::Tenant => ScopeView::Tenant,
            Scope::Realm => ScopeView::Realm,
            Scope::OtherRealm(id) => ScopeView::OtherRealm(id@),
        }
    }
}

/// A request with its texts as characters.
pub struct ApiCallView {
    pub method: HttpMethod,
    pub scope: ScopeView,
    pub segments: Seq<Seq<char>>,
    pub custom_method: Option<Seq<char>>,
    pub query: Option<(Seq<char>, Seq<char>)>,
    pub paginated: bool,
}

impl View for ApiCall {
    type V = ApiCallView;

    open spec fn view(&self) -> ApiCallView {
        ApiCallView {
            method: self.method,
            scope: self.scope@,
            segments: views(self.segments@),
            custom_method: match self.custom_method {
                Some(m) => Some(m@),
                None => None,
            },
            query: match self.query {
                Some((k, v)) => Some((k@, v@)),
                None => None,
            },
            paginated: self.paginated,
        }
    }
}

/// The URL of the scope of a request, from the URL `base` (see `then_extended`).
pub open spec fn scope_url(b: URLBuilderView, base: Option<Seq<char>>, scope: ScopeView) -> Option<
    Seq<char>,
> {
    let t = then_extended(base, seq!["v1"@, "tenants"@, b.tenant_id]);
    match scope {
        ScopeView::Tenant => t,
        ScopeView::Realm => then_extended(t, seq!["realms"@, b.realm_id]),
        ScopeView::OtherRealm(id) => then_extended(t, seq!["realms"@, id]),
    }
}

/// The URL of the tenant of `b`: `<api base>/v1/tenants/<tenant>` (see `then_extended`).
pub open spec fn tenant_root(b: URLBuilderView) -> Option<Seq<char>> {
    then_extended(url_parse(b.api_base_url), seq!["v1"@, "tenants"@, b.tenant_id])
}

/// The URL of the configured realm of `b`: `<tenant>/realms/<realm>`.
pub open spec fn realm_root(b: URLBuilderView) -> Option<Seq<char>> {
    then_extended(tenant_root(b), seq!["realms"@, b.realm_id])
}

/// The URL `u`, where there is one, with the custom method `m` appended to its last path
/// segment (see `custom_method_url`).
pub open spec fn with_custom_method(u: Option<Seq<char>>, m: Seq<char>) -> Option<Seq<char>> {
    match u {
        Some(p) => custom_method_url(p, m),
        None => None,
    }
}

/// The URL `u`, where there is one, with the query parameter `key=value` appended; `None`
/// where the result would not parse back to itself.
pub open spec fn with_query(u: Option<Seq<char>>, key: Seq<char>, value: Seq<char>) -> Option<
    Seq<char>,
> {
    match u {
        Some(p) => reparsed(url_pair_appended(p, key, value)),
        None => None,
    }
}

/// The URL `u` with the query parameter `filter=<f>` where a filter `f` is given.
pub open spec fn with_filter(u: Option<Seq<char>>, filter: Option<Seq<char>>) -> Option<Seq<char>> {
    match filter {
        Some(f) => with_query(u, "filter"@, f),
        None => u,
    }
}

/// The URL of `call` with the API base URL of `b`: the scope, then the segments where
/// there are any, then the custom method, then the query parameter; `None` where a step's
/// result would not parse back to itself, or the custom method cannot be appended (see
/// `then_extended`, `custom_method_url`).
pub open spec fn call_url_of(b: URLBuilderView, call: ApiCallView) -> Option<Seq<char>> {
    let root = scope_url(b, url_parse(b.api_base_url), call.scope);
    let path = if call.segments.len() == 0 {
        root
    } else {
        then_extended(root, call.segments)
    };
    let method = match (path, call.custom_method) {
        (Some(p), Some(m)) => custom_method_url(p, m),
        (p, None) => p,
        (None, _) => None,
    };
    match (method, call.query) {
        (Some(u), Some((k, v))) => reparsed(url_pair_appended(u, k, v)),
        (Some(u), None) => Some(u),
        (None, _) => None,
    }
}

fn string_refs(v: &Vec<String>) -> (r: Vec<&str>)
    ensures
        r@.map_values(|s: &str| s@) == views(v@),
{
    let mut out: Vec<&str> = Vec::new();
    let mut i: usize = 0;
    while i < v.len()
        invariant
            i <= v@.len(),
            out@.map_values(|s: &str| s@) == views(v@).take(i as int),
        decreases v@.len() - i,
    {
        let ghost before = out@;
        let s = v[i].as_str();
        assert(s@ == views(v@)[i as int]);
        out.push(s);
        assert(out@.map_values(|s: &str| s@) =~= before.map_values(|s: &str| s@).push(s@));
        assert(views(v@).take(i + 1) =~= views(v@).take(i as int).push(views(v@)[i as int]));
        i += 1;
    }
    assert(views(v@).take(v@.len() as int) == views(v@));
    out
}

/// The URL of `call` built by `b` on its API base URL; `None` where that base URL is not
/// usable (see `usable_base`), or a step leaves the builder without a URL.
pub fn call_url(b: URLBuilder, call: &ApiCall) -> (r: Option<String>)
    ensures
        usable_base(b@.api_base_url) ==> opt_view(r) == call_url_of(b@, call@),
        !usable_base(b@.api_base_url) ==> r is None,
{
    let ghost b0 = b@;
    let b = match b.api_checked() {
        Some(b) => b,
        None => {
            return None;
        },
    };
    let b = b.add_tenant();
    if !b.has_url() {
        return None;
    }
    let b = match &call.scope {
        Scope::Tenant => b,
        Scope::Realm => b.add_realm(),
        Scope::OtherRealm(id) => b.add_realm_with_override(id.clone()),
    };
    if !b.has_url() {
        return None;
    }
    let b = if call.segments.len() == 0 {
        b
    } else {
        b.add_path(string_refs(&call.segments))
    };
    if !b.has_url() {
        return None;
    }
    let b = match &call.custom_method {
        Some(m) => b.add_custom_method(m.as_str()),
        None => b,
    };
    if !b.has_url() {
        return None;
    }
    let b = match &call.query {
        Some((k, v)) => b.add_query_param(k.as_str(), Some(v.as_str())),
        None => b,
    };
    match b.to_string() {
        Ok(u) => Some(u),
        Err(_) => None,
    }
}

/// The segments `a`, `b` and `c` as owned strings.
pub fn segments3(a: &str, b: &str, c: &str) -> (r: Vec<String>)
    ensures
        views(r@) == seq![a@, b@, c@],
{
    let mut v: Vec<String> = Vec::new();
    v.push(String::from_str(a));
    v.push(String::from_str(b));
    v.push(String::from_str(c));
    assert(views(v@) =~= seq![a@, b@, c@]);
    v
}

/// The segments `a`, `b`, `c` and `d` as owned strings.
pub fn segments4(a: &str, b: &str, c: &str, d: &str) -> (r: Vec<String>)
    ensures
        views(r@) == seq![a@, b@, c@, d@],
{
    let mut v: Vec<String> = Vec::new();
    v.push(String::from_str(a));
    v.push(String::from_str(b));
    v.push(String::from_str(c));
    v.push(String::from_str(d));
    assert(views(v@) =~= seq![a@, b@, c@, d@]);
    v
}

/// The query parameter `filter=<filter>` where a filter is given.
pub fn filter_query(filter: Option<&str>) -> (r: Option<(String, String)>)
    ensures
        match filter {
            Some(f) => r matches Some((k, v)) && k@ == "filter"@ && v@ == f@,
            None => r is None,
        },
{
    match filter {
        Some(f) => Some((String::from_str("filter"), String::from_str(f))),
        None => None,
    }
}

/// The segment `a` as an owned string.
pub fn segments1(a: &str) -> (r: Vec<String>)
    ensures
        views(r@) == seq![a@],
{
    let mut v: Vec<String> = Vec::new();
    v.push(String::from_str(a));
    assert(views(v@) =~= seq![a@]);
    v
}

/// The segments `a` and `b` as owned strings.
pub fn segments2(a: &str, b: &str) -> (r: Vec<String>)
    ensures
        views(r@) == seq![a@, b@],
{
    let mut v: Vec<String> = Vec::new();
    v.push(String::from_str(a));
    v.push(String::from_str(b));
    assert(views(v@) =~= seq![a@, b@]);
    v
}

} // verus!
