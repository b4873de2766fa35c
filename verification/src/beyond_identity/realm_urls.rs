//! The URLs of a realm's resources, written out from a base URL and identifiers.
use vstd::prelude::*;
use vstd::string::*;

verus! {

/// `<base>/v1/tenants/<tenant>/realms/<realm>`.
pub open spec fn realm_path(base: Seq<char>, tenant_id: Seq<char>, realm_id: Seq<char>) -> Seq<
    char,
> {
    base + "/v1/tenants/"@ + tenant_id + "/realms/"@ + realm_id
}

/// `<base>/v1/tenants/<tenant>/realms/<realm>`.
pub fn realm_url(base: &str, tenant_id: &str, realm_id: &str) -> (r: String)
    ensures
        r@ == realm_path(base@, tenant_id@, realm_id@),
{
    let mut u = String::from_str(base);
    u.append("/v1/tenants/");
    u.append(tenant_id);
    u.append("/realms/");
    u.append(realm_id);
    u
}

/// `<base>/v1/tenants/<tenant>/realms/<realm>` followed by `rest`.
pub fn realm_url_with(base: &str, tenant_id: &str, realm_id: &str, rest: &str) -> (r: String)
    ensures
        r@ == realm_path(base@, tenant_id@, realm_id@) + rest@,
{
    let mut u = realm_url(base, tenant_id, realm_id);
    u.append(rest);
    u
}

/// `<base>/v1/tenants/<tenant>/realms/<realm>` followed by `a`, `id` and `b`.
pub fn realm_url_around(base: &str, tenant_id: &str, realm_id: &str, a: &str, id: &str, b: &str)
    -> (r: String)
    ensures
        r@ == realm_path(base@, tenant_id@, realm_id@) + a@ + id@ + b@,
{
    let mut u = realm_url(base, tenant_id, realm_id);
    u.append(a);
    u.append(id);
    u.append(b);
    u
}

/// What a paged URL ends with: `sep`, `page_token=` and the token where there is one;
/// nothing for the first page.
pub open spec fn page_suffix(sep: Seq<char>, page_token: Option<&str>) -> Seq<char> {
    match page_token {
        Some(t) => sep + "page_token="@ + t@,
        None => seq![],
    }
}

/// `u` followed by `sep`, `page_token=` and the token where there is one.
pub fn with_page_token(u: String, sep: &str, page_token: Option<&str>) -> (r: String)
    ensures
        r@ == u@ + page_suffix(sep@, page_token),
{
    let mut u = u;
    match page_token {
        Some(t) => {
            u.append(sep);
            u.append("page_token=");
            u.append(t);
            assert(u@ =~= u@);
        },
        None => {
            assert(u@ + seq![] =~= u@);
        },
    }
    u
}

} // verus!
