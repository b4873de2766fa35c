//! The API client's request logic: URLs built from the stored tenant and realm,
//! answers checked by their status, and paginated listings gathered page by page.
use vstd::prelude::*;
use vstd::string::*;
use crate::beyond_identity::api::common::url::{
    added_realm, added_realm_with_override, custom_method_url, has_base_url, then_extended,
    usable_base, with_url, URLBuilder as
    TenantURLBuilder, URLBuilderView,
};
use crate::common::database::models::{Realm, Tenant};
use crate::common::error::BiError;
use crate::text::{contains_char, decimal, u64_to_decimal};
use crate::weburl::{reparsed, reparses, url_pair_appended, url_parse};

verus! {

/// Whether an HTTP status code reports success (`StatusCode::is_success`: 200-299).
pub open spec fn is_success(status: u16) -> bool {
    200 <= status < 300
}

/// The body of an answer with a successful status; for any other status the error
/// `RequestError` with the status and the body.
pub fn checked_response(status: u16, body: String) -> (r: Result<String, BiError>)
    ensures
        is_success(status) ==> r == Ok::<String, BiError>(body),
        !is_success(status) ==> r == Err::<String, BiError>(BiError::RequestError(status, body)),
{
    if 200 <= status && status < 300 {
        Ok(body)
    } else {
        Err(BiError::RequestError(status, body))
    }
}

/// The query parameters that select a page: the page size and the token of the page.
pub open spec fn page_query(page_size: Option<u32>, page_token: Option<Seq<char>>) -> Seq<char> {
    match (page_size, page_token) {
        (Some(n), Some(t)) => "page_size="@ + decimal(n as nat) + "&page_token="@ + t,
        (Some(n), None) => "page_size="@ + decimal(n as nat),
        (None, Some(t)) => "page_token="@ + t,
        (None, None) => seq![],
    }
}

/// `url` with the page query appended after `&` where `url` already has a `?`, after `?`
/// where it has none; `url` itself where neither a size nor a token is given.
pub open spec fn paged_url(url: Seq<char>, page_size: Option<u32>, page_token: Option<Seq<char>>)
    -> Seq<char> {
    if page_size is None && page_token is None {
        url
    } else if url.contains('?') {
        url + "&"@ + page_query(page_size, page_token)
    } else {
        url + "?"@ + page_query(page_size, page_token)
    }
}

/// The URL of the page with token `page_token` of the listing at `url`.
pub fn page_url(url: &str, page_size: Option<u32>, page_token: Option<&str>) -> (r: String)
    ensures
        r@ == paged_url(
            url@,
            page_size,
            match page_token {
                Some(t) => Some(t@),
                None => None,
            },
        ),
{
    let ghost tok = match page_token {
        Some(t) => Some(t@),
        None => None::<Seq<char>>,
    };
    let query = match (page_size, page_token) {
        (Some(n), Some(t)) => {
            let mut q = String::from_str("page_size=");
            let d = u64_to_decimal(n as u64);
            q.append(d.as_str());
            q.append("&page_token=");
            q.append(t);
            q
        },
        (Some(n), None) => {
            let mut q = String::from_str("page_size=");
            let d = u64_to_decimal(n as u64);
            q.append(d.as_str());
            q
        },
        (None, Some(t)) => {
            let mut q = String::from_str("page_token=");
            q.append(t);
            q
        },
        (None, None) => {
            return String::from_str(url);
        },
    };
    assert(query@ == page_query(page_size, tok));
    let mut full = String::from_str(url);
    if contains_char(url, '?') {
        full.append("&");
    } else {
        full.append("?");
    }
    full.append(query.as_str());
    full
}

/// Flattening: the items of `pages`, page after page.
pub open spec fn flatten<T>(pages: Seq<Seq<T>>) -> Seq<T>
    decreases pages.len(),
{
    if pages.len() == 0 {
        seq![]
    } else {
        flatten(pages.drop_last()) + pages.last()
    }
}

/// A paginated listing being gathered: the listing's URL and page size, the pages
/// received so far, and the token of the next page.
pub struct Pagination<T> {
    url: String,
    page_size: Option<u32>,
    next_page_token: Option<String>,
    finished: bool,
    results: Vec<T>,
    pages: Ghost<Seq<Seq<T>>>,
}

/// What a `Pagination` holds.
pub struct PaginationView<T> {
    pub url: Seq<char>,
    pub page_size: Option<u32>,
    pub next_page_token: Option<Seq<char>>,
    pub finished: bool,
    pub results: Seq<T>,
    pub pages: Seq<Seq<T>>,
}

impl<T> View for Pagination<T> {
    type V = PaginationView<T>;

    closed spec fn view(&self) -> PaginationView<T> {
        PaginationView {
            url: self.url@,
            page_size: self.page_size,
            next_page_token: match self.next_page_token {
                Some(t) => Some(t@),
                None => None,
            },
            finished: self.finished,
            results: self.results@,
            pages: self.pages@,
        }
    }
}

impl<T> Pagination<T> {
    /// The results are the received pages' items, and a finished listing has no next page.
    pub closed spec fn wf(&self) -> bool {
        &&& self.results@ == flatten(self.pages@)
        &&& self.finished ==> self.next_page_token is None
    }

    /// Starts gathering the listing at `url`, with pages of `page_size` items where given.
    pub fn new(url: &str, page_size: Option<u32>) -> (r: Self)
        ensures
            r.wf(),
            r@.url == url@,
            r@.page_size == page_size,
            r@.next_page_token is None,
            !r@.finished,
            r@.pages == Seq::<Seq<T>>::empty(),
            r@.results == Seq::<T>::empty(),
    {
        Pagination {
            url: String::from_str(url),
            page_size,
            next_page_token: None,
            finished: false,
            results: Vec::new(),
            pages: Ghost(Seq::empty()),
        }
    }

    /// The URL of the next page to fetch; `None` once the last page was received.
    pub fn next_url(&self) -> (r: Option<String>)
        ensures
            r is None <==> self@.finished,
            r matches Some(u) ==> u@ == paged_url(self@.url, self@.page_size, self@.next_page_token),
    {
        if self.finished {
            None
        } else {
            let tok = match &self.next_page_token {
                Some(t) => Some(t.as_str()),
                None => None,
            };
            Some(page_url(self.url.as_str(), self.page_size, tok))
        }
    }

    /// Records a page: its items follow those received so far, and the listing is complete
    /// when the page names no next page.
    pub fn record_page(&mut self, items: Vec<T>, next_page_token: Option<String>)
        requires
            old(self).wf(),
            !old(self)@.finished,
        ensures
            final(self).wf(),
            final(self)@.pages == old(self)@.pages.push(items@),
            final(self)@.results == old(self)@.results + items@,
            final(self)@.results == flatten(final(self)@.pages),
            final(self)@.finished == next_page_token is None,
            final(self)@.next_page_token == match next_page_token {
                Some(t) => Some(t@),
                None => None::<Seq<char>>,
            },
            final(self)@.url == old(self)@.url,
            final(self)@.page_size == old(self)@.page_size,
    {
        let mut items = items;
        let ghost page = items@;
        let ghost new_pages = self.pages@.push(page);
        assert(new_pages.drop_last() =~= self.pages@);
        assert(new_pages.last() == page);
        self.results.append(&mut items);
        self.pages = Ghost(new_pages);
        self.finished = next_page_token.is_none();
        self.next_page_token = next_page_token;
    }

    /// The items of all pages received, in order.
    pub fn into_results(self) -> (r: Vec<T>)
        requires
            self.wf(),
        ensures
            r@ == self@.results,
            r@ == flatten(self@.pages),
    {
        self.results
    }
}

/// Builds request URLs from a stored tenant and realm: choose the API or the Auth base URL
/// of the realm, then add path segments, a custom method and query parameters.
pub struct URLBuilder {
    inner: TenantURLBuilder,
}

impl View for URLBuilder {
    type V = URLBuilderView;

    closed spec fn view(&self) -> URLBuilderView {
        self.inner@
    }
}

impl URLBuilder {
    /// Starts a builder for `realm` of `tenant`: no URL yet, the realm's base URLs.
    pub fn build(tenant: Tenant, realm: Realm) -> (r: Self)
        ensures
            r@ == (URLBuilderView {
                url: None,
                api_base_url: realm.api_base_url@,
                auth_base_url: realm.auth_base_url@,
                tenant_id: tenant.id@,
                realm_id: realm.id@,
            }),
    {
        URLBuilder {
            inner: TenantURLBuilder::from_parts(
                realm.api_base_url,
                realm.auth_base_url,
                tenant.id,
                realm.id,
            ),
        }
    }

    /// Makes the builder's URL the parsed API base URL; where that URL would not parse back
    /// to itself, the builder is left without a URL.
    pub fn api(self) -> (r: Self)
        requires
            url_parse(self@.api_base_url) is Some,
        ensures
            r@ == with_url(self@, reparsed(url_parse(self@.api_base_url)->0)),
    {
        URLBuilder { inner: self.inner.api() }
    }

    /// Makes the builder's URL the parsed Auth base URL; where that URL would not parse back
    /// to itself, the builder is left without a URL.
    pub fn auth(self) -> (r: Self)
        requires
            url_parse(self@.auth_base_url) is Some,
        ensures
            r@ == with_url(self@, reparsed(url_parse(self@.auth_base_url)->0)),
    {
        URLBuilder { inner: self.inner.auth() }
    }

    /// `api`, where the API base URL is usable; `None` where it is not.
    pub fn api_checked(self) -> (r: Option<Self>)
        ensures
            r is Some <==> usable_base(self@.api_base_url),
            r matches Some(b) ==> b@ == with_url(self@, url_parse(self@.api_base_url)),
    {
        match self.inner.api_checked() {
            Some(b) => Some(URLBuilder { inner: b }),
            None => None,
        }
    }

    /// `auth`, where the Auth base URL is usable; `None` where it is not.
    pub fn auth_checked(self) -> (r: Option<Self>)
        ensures
            r is Some <==> usable_base(self@.auth_base_url),
            r matches Some(b) ==> b@ == with_url(self@, url_parse(self@.auth_base_url)),
    {
        match self.inner.auth_checked() {
            Some(b) => Some(URLBuilder { inner: b }),
            None => None,
        }
    }

    /// Whether the builder holds a URL.
    pub fn has_url(&self) -> (r: bool)
        ensures
            r == self@.url is Some,
    {
        self.inner.has_url()
    }

    /// Adds the segments `v1`, `tenants` and the tenant ID to the path. Where the `url`
    /// crate's result would not parse back to itself, the builder is left without a URL.
    pub fn add_tenant(self) -> (r: Self)
        requires
            has_base_url(self@),
        ensures
            r@ == with_url(self@, then_extended(self@.url, seq!["v1"@, "tenants"@, self@.tenant_id])),
    {
        URLBuilder { inner: self.inner.add_tenant() }
    }

    /// Adds the segments `realms` and the realm ID to the path; as `add_tenant` where the
    /// result would not parse back to itself.
    pub fn add_realm(self) -> (r: Self)
        requires
            has_base_url(self@),
        ensures
            r@ == added_realm(self@),
    {
        URLBuilder { inner: self.inner.add_realm() }
    }

    /// Adds the segments `realms` and `id` to the path; as `add_tenant` where the result
    /// would not parse back to itself.
    pub fn add_realm_with_override(self, id: String) -> (r: Self)
        requires
            has_base_url(self@),
        ensures
            r@ == added_realm_with_override(self@, id@),
    {
        URLBuilder { inner: self.inner.add_realm_with_override(id) }
    }

    /// Adds `segments` to the path, in order; as `add_tenant` where the result would not
    /// parse back to itself.
    pub fn add_path(self, segments: Vec<&str>) -> (r: Self)
        requires
            has_base_url(self@),
        ensures
            r@ == with_url(self@, then_extended(self@.url, segments@.map_values(|s: &str| s@))),
    {
        URLBuilder { inner: self.inner.add_path(segments) }
    }

    /// Appends `:suffix` to the last path segment, every earlier segment keeping its
    /// value (see `custom_method_url`); where the `url` crate's result would not parse back
    /// to itself or keep them, the builder is left without a URL.
    pub fn add_custom_method(self, suffix: &str) -> (r: Self)
        requires
            has_base_url(self@),
        ensures
            r@ == with_url(self@, custom_method_url(self@.url->0, suffix@)),
    {
        URLBuilder { inner: self.inner.add_custom_method(suffix) }
    }

    /// Appends the query parameter `key=value` where `value` is given; where the `url`
    /// crate's result would not parse back to itself, the builder is left without a URL.
    pub fn add_query_param(self, key: &str, value: Option<&str>) -> (r: Self)
        requires
            value is Some ==> self@.url is Some,
        ensures
            value matches Some(v) ==> r@ == with_url(
                self@,
                reparsed(url_pair_appended(self@.url->0, key@, v@)),
            ),
            value is None ==> r@ == self@,
    {
        URLBuilder { inner: self.inner.add_query_param(key, value) }
    }

    /// The URL built, or an error where no base URL was chosen. The URL returned parses
    /// back to itself.
    pub fn to_string(self) -> (r: Result<String, BiError>)
        ensures
            self@.url matches Some(u) ==> (r matches Ok(s) && s@ == u && reparses(s@)),
            self@.url is None ==> (r matches Err(BiError::StringError(m))
                && m@ == "URL not initialized. Call api() or auth() first."@),
    {
        self.inner.to_string()
    }
}

} // verus!
