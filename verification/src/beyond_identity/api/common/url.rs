//! Building the URL of an API request, segment by segment.
use vstd::prelude::*;
use vstd::string::*;
use crate::beyond_identity::tenant::TenantConfig;
use crate::common::error::BiError;
use crate::text::{chars_of, same_text, string_from_range, views};
use crate::weburl::{
    append_query_pair, extend_path, opt_view, parse_url, path_segments, path_text, reparse,
    reparsed, reparses, settle, settled, settled_url, url_cannot_be_a_base, url_extended, url_pair_appended, url_parse, url_path_segments,
    url_path_text, url_with_path, with_path,
};

verus! {

/// Builds request URLs: choose the API or the Auth base URL, then add path segments,
/// a custom method and query parameters.
pub struct URLBuilder {
    url: Option<String>,
    api_base_url: String,
    auth_base_url: String,
    tenant_id: String,
    realm_id: String,
}

/// What a `URLBuilder` holds: the URL built so far (`None` before a base is chosen),
/// the two base URLs, and the tenant and realm identifiers.
pub struct URLBuilderView {
    pub url: Option<Seq<char>>,
    pub api_base_url: Seq<char>,
    pub auth_base_url: Seq<char>,
    pub tenant_id: Seq<char>,
    pub realm_id: Seq<char>,
}

impl View for URLBuilder {
    type V = URLBuilderView;

    closed spec fn view(&self) -> URLBuilderView {
        URLBuilderView {
            url: opt_view(self.url),
            api_base_url: self.api_base_url@,
            auth_base_url: self.auth_base_url@,
            tenant_id: self.tenant_id@,
            realm_id: self.realm_id@,
        }
    }
}

/// Whether `base` parses, to a URL whose serialization parses back to itself and whose path
/// can take segments.
pub open spec fn usable_base(base: Seq<char>) -> bool {
    url_parse(base) matches Some(u) && settled_url(u)
}

/// Whether the builder `b` holds a URL whose path can take segments, which the steps that
/// add to the path need.
pub open spec fn has_base_url(b: URLBuilderView) -> bool {
    b.url matches Some(u) && !url_cannot_be_a_base(u)
}

/// The builder `b` with the URL `u` (none where `u` is `None`).
pub open spec fn with_url(b: URLBuilderView, u: Option<Seq<char>>) -> URLBuilderView {
    URLBuilderView { url: u, ..b }
}

/// The URL `u`, where there is one, extended by the path segments `segments`; `None` where
/// there is none, or the result would not parse back to itself, to a URL whose path can
/// take segments (see `settled`).
pub open spec fn then_extended(u: Option<Seq<char>>, segments: Seq<Seq<char>>) -> Option<
    Seq<char>,
> {
    match u {
        Some(u) => settled(url_extended(u, segments)),
        None => None,
    }
}

/// The builder `b` after `add_realm`: its URL extended by `realms` and its own realm.
pub open spec fn added_realm(b: URLBuilderView) -> URLBuilderView {
    with_url(b, then_extended(b.url, seq!["realms"@, b.realm_id]))
}

/// The builder `b` after `add_realm_with_override(id)`: its URL extended by `realms` and
/// `id`.
pub open spec fn added_realm_with_override(b: URLBuilderView, id: Seq<char>) -> URLBuilderView {
    with_url(b, then_extended(b.url, seq!["realms"@, id]))
}

/// Overriding the realm changes only the realm in the URL: the builder keeps its own
/// realm, and overriding with that realm gives what `add_realm` gives.
pub proof fn override_with_own_realm_is_add_realm(b: URLBuilderView, id: Seq<char>)
    ensures
        added_realm_with_override(b, id).realm_id == b.realm_id,
        added_realm_with_override(b, b.realm_id) == added_realm(b),
{
}

/// Every step of a builder changes only the URL built: the base URLs, the tenant and the
/// realm it was built with stay as they were, and the URL is the step's.
pub proof fn steps_keep_the_configuration(b: URLBuilderView, u: Option<Seq<char>>)
    ensures
        with_url(b, u).api_base_url == b.api_base_url,
        with_url(b, u).auth_base_url == b.auth_base_url,
        with_url(b, u).tenant_id == b.tenant_id,
        with_url(b, u).realm_id == b.realm_id,
        with_url(b, u).url == u,
        with_url(with_url(b, u), u) == with_url(b, u),
{
}

/// How a custom method's name is written in the path: every character as it is, except
/// those that would end or split a path segment (`%`, `/`, `\\`, `?`, `#`), which are
/// percent-encoded.
pub open spec fn escaped_char(c: char) -> Seq<char> {
    if c == '%' {
        seq!['%', '2', '5']
    } else if c == '/' {
        seq!['%', '2', 'F']
    } else if c == '\\' {
        seq!['%', '5', 'C']
    } else if c == '?' {
        seq!['%', '3', 'F']
    } else if c == '#' {
        seq!['%', '2', '3']
    } else {
        seq![c]
    }
}

/// `s` with each character written as `escaped_char` writes it.
pub open spec fn escaped_suffix(s: Seq<char>) -> Seq<char>
    decreases s.len(),
{
    if s.len() == 0 {
        seq![]
    } else {
        escaped_suffix(s.drop_last()) + escaped_char(s.last())
    }
}

/// Whether the path segments `new` are `old` with only the last one changed, and that one
/// by text appended after a `:`: there are as many, the earlier ones are equal, and the
/// last one begins with the old last one followed by `:`.
pub open spec fn keeps_earlier_segments(old: Seq<Seq<char>>, new: Seq<Seq<char>>) -> bool {
    &&& old.len() >= 1
    &&& new.len() == old.len()
    &&& forall|i: int| 0 <= i < old.len() - 1 ==> #[trigger] new[i] == old[i]
    &&& (old.last() + seq![':']).is_prefix_of(new.last())
}

/// The URL `u` with `:` and the custom method `suffix` appended to its path, which is to
/// the last path segment: the path text followed by `:` and the escaped suffix, set as the
/// path. `None` where the result would not parse back to itself, to a URL that can be a
/// base, or would not keep the earlier segments and extend the last one.
pub open spec fn custom_method_url(u: Seq<char>, suffix: Seq<char>) -> Option<Seq<char>> {
    let v = url_with_path(u, url_path_text(u) + seq![':'] + escaped_suffix(suffix));
    match (url_path_segments(u), url_path_segments(v)) {
        (Some(old), Some(new)) => if settled_url(v) && keeps_earlier_segments(old, new) {
            Some(v)
        } else {
            None
        },
        _ => None,
    }
}

/// A custom method appended by `add_custom_method` leaves every earlier path segment as it
/// was and only extends the last one, after a `:`.
pub proof fn custom_method_keeps_earlier_segments(u: Seq<char>, suffix: Seq<char>)
    ensures
        custom_method_url(u, suffix) matches Some(v) ==> {
            &&& settled_url(v)
            &&& url_path_segments(u) matches Some(old)
            &&& url_path_segments(v) matches Some(new)
            &&& keeps_earlier_segments(old, new)
        },
{
}

/// `s` with each character escaped as `escaped_char` does.
pub fn escape_suffix(s: &str) -> (r: String)
    ensures
        r@ == escaped_suffix(s@),
{
    let v = chars_of(s);
    let mut out = String::new();
    let mut i: usize = 0;
    while i < v.len()
        invariant
            i <= v@.len(),
            v@ == s@,
            out@ == escaped_suffix(v@.take(i as int)),
        decreases v@.len() - i,
    {
        let c = v[i];
        assert(v@.take(i + 1).drop_last() == v@.take(i as int));
        assert(v@.take(i + 1).last() == c);
        proof {
            reveal_strlit("%25");
            reveal_strlit("%2F");
            reveal_strlit("%5C");
            reveal_strlit("%3F");
            reveal_strlit("%23");
        }
        if c == '%' {
            out.append("%25");
        } else if c == '/' {
            out.append("%2F");
        } else if c == '\\' {
            out.append("%5C");
        } else if c == '?' {
            out.append("%3F");
        } else if c == '#' {
            out.append("%23");
        } else {
            let one = string_from_range(&v, i, i + 1);
            assert(one@ =~= seq![c]);
            out.append(one.as_str());
        }
        assert(out@ =~= escaped_suffix(v@.take(i + 1)));
        i += 1;
    }
    assert(v@.take(v@.len() as int) == v@);
    out
}

/// Whether `text` begins with `prefix`.
pub fn starts_with(text: &str, prefix: &str) -> (r: bool)
    ensures
        r == prefix@.is_prefix_of(text@),
{
    let t = chars_of(text);
    let p = chars_of(prefix);
    if p.len() > t.len() {
        return false;
    }
    let mut i: usize = 0;
    while i < p.len()
        invariant
            i <= p@.len() <= t@.len(),
            t@ == text@,
            p@ == prefix@,
            forall|j: int| 0 <= j < i ==> t@[j] == p@[j],
        decreases p@.len() - i,
    {
        if t[i] != p[i] {
            return false;
        }
        i += 1;
    }
    assert(prefix@ =~= text@.take(prefix@.len() as int));
    true
}

/// Whether the path segments `new` keep the earlier ones of `old` and extend its last one
/// after a `:` (see `keeps_earlier_segments`).
fn segments_kept(old: &Vec<String>, new: &Vec<String>) -> (r: bool)
    ensures
        r == keeps_earlier_segments(views(old@), views(new@)),
{
    let n = old.len();
    if n == 0 || new.len() != n {
        return false;
    }
    let mut i: usize = 0;
    while i < n - 1
        invariant
            1 <= n == old@.len() == new@.len(),
            i <= n - 1,
            forall|j: int| 0 <= j < i ==> #[trigger] views(new@)[j] == views(old@)[j],
        decreases n - 1 - i,
    {
        if !same_text(new[i].as_str(), old[i].as_str()) {
            assert(views(new@)[i as int] != views(old@)[i as int]);
            return false;
        }
        i += 1;
    }
    let mut prefix = old[n - 1].clone();
    prefix.append(":");
    proof {
        reveal_strlit(":");
    }
    assert(prefix@ =~= views(old@).last() + seq![':']);
    starts_with(new[n - 1].as_str(), prefix.as_str())
}

/// The strings `v` as owned strings.
pub fn owned_segments(v: &Vec<&str>) -> (r: Vec<String>)
    ensures
        views(r@) == v@.map_values(|s: &str| s@),
{
    let mut r: Vec<String> = Vec::new();
    let mut i: usize = 0;
    while i < v.len()
        invariant
            i <= v@.len(),
            views(r@) == v@.subrange(0, i as int).map_values(|s: &str| s@),
        decreases v@.len() - i,
    {
        let ghost before = views(r@);
        r.push(String::from_str(v[i]));
        assert(views(r@) =~= v@.subrange(0, i + 1).map_values(|s: &str| s@)) by {
            assert(views(r@) =~= before.push(v@[i as int]@));
        }
        i += 1;
    }
    assert(v@.subrange(0, v@.len() as int) == v@);
    r
}

/// `base` and the segments `segs` after it.
fn three(a: String, b: String, c: String) -> (r: Vec<String>)
    ensures
        views(r@) == seq![a@, b@, c@],
{
    let mut r: Vec<String> = Vec::new();
    r.push(a);
    r.push(b);
    r.push(c);
    assert(views(r@) =~= seq![a@, b@, c@]);
    r
}

fn two(a: String, b: String) -> (r: Vec<String>)
    ensures
        views(r@) == seq![a@, b@],
{
    let mut r: Vec<String> = Vec::new();
    r.push(a);
    r.push(b);
    assert(views(r@) =~= seq![a@, b@]);
    r
}

impl URLBuilder {
    #[verifier::type_invariant]
    spec fn inv(&self) -> bool {
        self.url matches Some(u) ==> reparses(u@)
    }

    /// Starts a builder from the tenant configuration: no URL yet, the configuration's base
    /// URLs, tenant and realm.
    pub fn build(tenant_config: &TenantConfig) -> (r: Self)
        ensures
            r@ == (URLBuilderView {
                url: None,
                api_base_url: tenant_config.api_base_url@,
                auth_base_url: tenant_config.auth_base_url@,
                tenant_id: tenant_config.tenant_id@,
                realm_id: tenant_config.realm_id@,
            }),
    {
        URLBuilder {
            url: None,
            api_base_url: tenant_config.api_base_url.clone(),
            auth_base_url: tenant_config.auth_base_url.clone(),
            tenant_id: tenant_config.tenant_id.clone(),
            realm_id: tenant_config.realm_id.clone(),
        }
    }

    /// A builder with no URL yet over the given base URLs, tenant and realm.
    pub(crate) fn from_parts(
        api_base_url: String,
        auth_base_url: String,
        tenant_id: String,
        realm_id: String,
    ) -> (r: Self)
        ensures
            r@ == (URLBuilderView {
                url: None,
                api_base_url: api_base_url@,
                auth_base_url: auth_base_url@,
                tenant_id: tenant_id@,
                realm_id: realm_id@,
            }),
    {
        URLBuilder { url: None, api_base_url, auth_base_url, tenant_id, realm_id }
    }

    /// Makes the builder's URL the parsed API base URL; where that URL would not parse
    /// back to itself, the builder is left without a URL.
    pub fn api(self) -> (r: Self)
        requires
            url_parse(self@.api_base_url) is Some,
        ensures
            r@ == with_url(self@, reparsed(url_parse(self@.api_base_url)->0)),
    {
        let mut s = self;
        let u = parse_url(s.api_base_url.as_str());
        match u {
            Ok(u) => {
                s.url = reparse(u);
            },
            Err(_) => {},
        }
        s
    }

    /// Makes the builder's URL the parsed Auth base URL; where that URL would not parse
    /// back to itself, the builder is left without a URL.
    pub fn auth(self) -> (r: Self)
        requires
            url_parse(self@.auth_base_url) is Some,
        ensures
            r@ == with_url(self@, reparsed(url_parse(self@.auth_base_url)->0)),
    {
        let mut s = self;
        let u = parse_url(s.auth_base_url.as_str());
        match u {
            Ok(u) => {
                s.url = reparse(u);
            },
            Err(_) => {},
        }
        s
    }

    /// Whether the base URL `base` parses to a URL that parses back to itself and whose
    /// path can take segments, which `api` and `auth` need of their base.
    pub fn base_usable(base: &str) -> (r: bool)
        ensures
            r == usable_base(base@),
    {
        match parse_url(base) {
            Ok(u) => settle(u).is_some(),
            Err(_) => false,
        }
    }

    /// `api`, where the API base URL is usable; `None` where it is not.
    pub fn api_checked(self) -> (r: Option<Self>)
        ensures
            r is Some <==> usable_base(self@.api_base_url),
            r matches Some(b) ==> b@ == with_url(self@, url_parse(self@.api_base_url)),
    {
        if Self::base_usable(self.api_base_url.as_str()) {
            Some(self.api())
        } else {
            None
        }
    }

    /// `auth`, where the Auth base URL is usable; `None` where it is not.
    pub fn auth_checked(self) -> (r: Option<Self>)
        ensures
            r is Some <==> usable_base(self@.auth_base_url),
            r matches Some(b) ==> b@ == with_url(self@, url_parse(self@.auth_base_url)),
    {
        if Self::base_usable(self.auth_base_url.as_str()) {
            Some(self.auth())
        } else {
            None
        }
    }

    /// Whether the builder holds a URL.
    pub fn has_url(&self) -> (r: bool)
        ensures
            r == self@.url is Some,
    {
        self.url.is_some()
    }

    fn push_segments(self, segs: &Vec<String>) -> (r: Self)
        requires
            has_base_url(self@),
        ensures
            r@ == with_url(self@, then_extended(self@.url, views(segs@))),
    {
        proof {
            use_type_invariant(&self);
        }
        let mut s = self;
        let next = match &s.url {
            Some(u) => settle(extend_path(u.as_str(), segs)),
            None => None,
        };
        s.url = next;
        s
    }

    /// Adds the segments `v1`, `tenants` and the tenant ID to the path. Where the `url`
    /// crate's result would not parse back to itself, the builder is left without a URL.
    pub fn add_tenant(self) -> (r: Self)
        requires
            has_base_url(self@),
        ensures
            r@ == with_url(self@, then_extended(self@.url, seq!["v1"@, "tenants"@, self@.tenant_id])),
    {
        let segs = three(String::from_str("v1"), String::from_str("tenants"), self.tenant_id.clone());
        self.push_segments(&segs)
    }

    /// Adds the segments `realms` and the realm ID to the path; as `add_tenant` where the
    /// result would not parse back to itself.
    pub fn add_realm(self) -> (r: Self)
        requires
            has_base_url(self@),
        ensures
            r@ == added_realm(self@),
    {
        let segs = two(String::from_str("realms"), self.realm_id.clone());
        self.push_segments(&segs)
    }

    /// Adds the segments `realms` and `id` to the path; as `add_tenant` where the result
    /// would not parse back to itself.
    pub fn add_realm_with_override(self, id: String) -> (r: Self)
        requires
            has_base_url(self@),
        ensures
            r@ == added_realm_with_override(self@, id@),
    {
        let segs = two(String::from_str("realms"), id);
        self.push_segments(&segs)
    }

    /// Adds `segments` to the path, in order; as `add_tenant` where the result would not
    /// parse back to itself.
    pub fn add_path(self, segments: Vec<&str>) -> (r: Self)
        requires
            has_base_url(self@),
        ensures
            r@ == with_url(self@, then_extended(self@.url, segments@.map_values(|s: &str| s@))),
    {
        let segs = owned_segments(&segments);
        self.push_segments(&segs)
    }

    /// Appends `:suffix` to the last path segment: the path text gets `:` and the suffix
    /// appended, with the characters that would end or split a segment escaped, so every
    /// earlier segment keeps its value. Where the `url` crate's result would not parse back
    /// to itself, or would not keep the earlier segments, the builder is left without a URL.
    pub fn add_custom_method(self, suffix: &str) -> (r: Self)
        requires
            has_base_url(self@),
        ensures
            r@ == with_url(self@, custom_method_url(self@.url->0, suffix@)),
    {
        proof {
            use_type_invariant(&self);
        }
        let mut s = self;
        let next = match &s.url {
            Some(u) => {
                let mut path = path_text(u.as_str());
                path.append(":");
                let escaped = escape_suffix(suffix);
                path.append(escaped.as_str());
                proof {
                    reveal_strlit(":");
                }
                assert(path@ =~= url_path_text(u@) + seq![':'] + escaped_suffix(suffix@));
                let candidate = with_path(u.as_str(), path.as_str());
                match settle(candidate) {
                    Some(candidate) => {
                        match (path_segments(u.as_str()), path_segments(candidate.as_str())) {
                            (Some(old), Some(new)) => {
                                if segments_kept(&old, &new) {
                                    Some(candidate)
                                } else {
                                    None
                                }
                            },
                            _ => None,
                        }
                    },
                    None => None,
                }
            },
            None => None,
        };
        s.url = next;
        s
    }

    /// Appends the query parameter `key=value` where `value` is given; leaves the URL as
    /// it is where it is not. Where the `url` crate's result would not parse back to itself,
    /// the builder is left without a URL.
    pub fn add_query_param(self, key: &str, value: Option<&str>) -> (r: Self)
        requires
            value is Some ==> self@.url is Some,
        ensures
            value matches Some(v) ==> r@ == with_url(
                self@,
                reparsed(url_pair_appended(self@.url->0, key@, v@)),
            ),
            value is None ==> r@ == self@,
    {
        proof {
            use_type_invariant(&self);
        }
        let mut s = self;
        match value {
            Some(v) => {
                let next = match &s.url {
                    Some(u) => reparse(append_query_pair(u.as_str(), key, v)),
                    None => None,
                };
                s.url = next;
            },
            None => {},
        }
        s
    }

    /// The URL built, or an error where no base URL was chosen. The URL returned parses
    /// back to itself.
    pub fn to_string(self) -> (r: Result<String, BiError>)
        ensures
            self@.url matches Some(u) ==> (r matches Ok(s) && s@ == u && reparses(s@)),
            self@.url is None ==> (r matches Err(BiError::StringError(m))
                && m@ == "URL not initialized. Call api() or auth() first."@),
    {
        proof {
            use_type_invariant(&self);
        }
        match self.url {
            Some(u) => Ok(u),
            None => Err(
                BiError::StringError(
                    String::from_str("URL not initialized. Call api() or auth() first."),
                ),
            ),
        }
    }
}

} // verus!
