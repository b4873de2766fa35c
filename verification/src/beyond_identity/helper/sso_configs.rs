//! SSO configurations: bookmark applications and the identities assigned to them.
use vstd::prelude::*;
use vstd::string::*;
use crate::beyond_identity::realm_urls::{realm_path, realm_url_around, realm_url_with};
use crate::text::{chars_of, is_white_space, lemma_trimmed_keeps, string_from_range, trim, trimmed};
use crate::weburl::opt_view;

verus! {

/// An SSO configuration to delete.
#[derive(Debug)]
pub struct DeleteSsoConfig {
    pub id: String,
    pub display_name: String,
}

/// A bookmark SSO configuration as the API reports it.
#[derive(Debug)]
pub struct SsoConfigBookmark {
    pub id: String,
    pub display_name: String,
    pub is_migrated: bool,
    pub payload: SsoConfigPayloadBookmark,
}

/// The payload of a bookmark SSO configuration.
#[derive(Debug)]
pub struct SsoConfigPayloadBookmark {
    pub bookmark: Bookmark,
}

/// A bookmark: a login link shown as a tile.
#[derive(Debug)]
pub struct Bookmark {
    pub login_link: String,
    pub icon: String,
    pub is_tile_visible: bool,
    pub application_tile_id: String,
}

/// What `Regex::new(pattern)` followed by `replace_all(text, "")` gives: the text without
/// the pattern's matches, or `None` where the pattern does not compile.
pub uninterp spec fn regex_removed(pattern: Seq<char>, text: Seq<char>) -> Option<Seq<char>>;

/// Whether a label keeps `c`: an ASCII letter or a Unicode white space.
pub open spec fn kept_in_label(c: char) -> bool {
    ('a' <= c <= 'z') || ('A' <= c <= 'Z') || is_white_space(c)
}

/// `regex::Regex::new(pattern)` and `Regex::replace_all(text, "")`: `None` where the
/// pattern does not compile, otherwise `text` without the pattern's matches. Of the
/// pattern `[^a-zA-Z\s]` it claims what the crate documents: the class matches one
/// character that is neither an ASCII letter nor Unicode white space (`\s` is
/// `\p{White_Space}`), so exactly those characters are removed.
#[verifier::external_body]
fn remove_matches(pattern: &str, text: &str) -> (r: Option<String>)
    ensures
        opt_view(r) == regex_removed(pattern@, text@),
        pattern@ == "[^a-zA-Z\\s]"@ ==> opt_view(r) == Some(text@.filter(|c: char| kept_in_label(c))),
{
    match regex::Regex::new(pattern) {
        Ok(re) => Some(re.replace_all(text, "").to_string()),
        Err(_) => None,
    }
}

/// The number of bytes of `c` in UTF-8.
pub open spec fn utf8_width(c: char) -> nat {
    if (c as u32) < 0x80 {
        1
    } else if (c as u32) < 0x800 {
        2
    } else if (c as u32) < 0x10000 {
        3
    } else {
        4
    }
}

/// The number of bytes of `s` in UTF-8 (`str::len`).
pub open spec fn utf8_len(s: Seq<char>) -> nat
    decreases s.len(),
{
    if s.len() == 0 {
        0
    } else {
        utf8_len(s.drop_last()) + utf8_width(s.last())
    }
}

/// The first `n` bytes of `s` as characters, looking from the prefix of `k` characters on;
/// `None` where byte `n` falls inside a character (where `&s[..n]` panics).
pub open spec fn cut_from(s: Seq<char>, n: nat, k: int) -> Option<Seq<char>>
    decreases s.len() - k,
{
    if k < 0 || k > s.len() || utf8_len(s.take(k)) > n {
        None
    } else if utf8_len(s.take(k)) == n {
        Some(s.take(k))
    } else if k == s.len() {
        None
    } else {
        cut_from(s, n, k + 1)
    }
}

/// A label as SSO configurations take it: only ASCII letters and white space, trimmed,
/// and cut to its first 60 bytes where it is longer; `None` where byte 60 falls inside a
/// character (which `&label[..60]` refuses with a panic).
pub open spec fn sanitized_label(label: Seq<char>) -> Option<Seq<char>> {
    let t = trimmed(label.filter(|c: char| kept_in_label(c)));
    if utf8_len(t) > 60 {
        cut_from(t, 60, 0)
    } else {
        Some(t)
    }
}

fn char_width(c: char) -> (r: usize)
    ensures
        r == utf8_width(c),
{
    let u = c as u32;
    if u < 0x80 {
        1
    } else if u < 0x800 {
        2
    } else if u < 0x10000 {
        3
    } else {
        4
    }
}

/// The label kept of `label` (see `sanitized_label`).
pub fn sanitize_label(label: &str) -> (r: Option<String>)
    ensures
        opt_view(r) == sanitized_label(label@),
{
    let kept = match remove_matches("[^a-zA-Z\\s]", label) {
        Some(k) => k,
        None => {
            return None;
        },
    };
    let t = trim(kept.as_str());
    let v = chars_of(t.as_str());
    let ghost ts = t@;
    // the byte length, counted until it passes 60
    let mut total: usize = 0;
    let mut i: usize = 0;
    while i < v.len() && total <= 60
        invariant
            i <= v@.len(),
            v@ == ts,
            total == utf8_len(ts.take(i as int)),
            total <= 64,
        decreases v@.len() - i,
    {
        assert(ts.take(i + 1).drop_last() == ts.take(i as int));
        total = total + char_width(v[i]);
        i += 1;
    }
    if total <= 60 {
        assert(ts.take(i as int) == ts);
        return Some(t);
    }
    proof {
        lemma_utf8_len_prefix(ts, i as int);
    }
    // the characters of the first 60 bytes
    let mut used: usize = 0;
    let mut k: usize = 0;
    assert(ts.take(0).len() == 0);
    while used < 60
        invariant
            k <= v@.len(),
            v@ == ts,
            used == utf8_len(ts.take(k as int)),
            used <= 60,
            utf8_len(ts) > 60,
            sanitized_label(label@) == cut_from(ts, 60, 0),
            cut_from(ts, 60, 0) == cut_from(ts, 60, k as int),
        decreases 60 - used,
    {
        if k == v.len() {
            assert(ts.take(k as int) == ts);
            return None;
        }
        assert(ts.take(k + 1).drop_last() == ts.take(k as int));
        let w = char_width(v[k]);
        if used + w > 60 {
            assert(cut_from(ts, 60, (k + 1) as int) is None);
            assert(cut_from(ts, 60, k as int) == cut_from(ts, 60, (k + 1) as int));
            return None;
        }
        used = used + w;
        k += 1;
    }
    Some(string_from_range(&v, 0, k))
}

/// The byte length of a prefix does not exceed that of the whole.
proof fn lemma_utf8_len_prefix(s: Seq<char>, i: int)
    requires
        0 <= i <= s.len(),
    ensures
        utf8_len(s.take(i)) <= utf8_len(s),
    decreases s.len() - i,
{
    if i < s.len() {
        assert(s.take(i + 1).drop_last() == s.take(i));
        lemma_utf8_len_prefix(s, i + 1);
    } else {
        assert(s.take(i) == s);
    }
}

/// A cut that exists has exactly the bytes asked for, and is a prefix.
proof fn lemma_cut_from(s: Seq<char>, n: nat, k: int)
    ensures
        cut_from(s, n, k) matches Some(t) ==> utf8_len(t) == n && exists|j: int|
            0 <= j <= s.len() && t == s.take(j),
    decreases s.len() - k,
{
    if k < 0 || k > s.len() || utf8_len(s.take(k)) > n {
    } else if utf8_len(s.take(k)) == n {
    } else if k == s.len() {
    } else {
        lemma_cut_from(s, n, k + 1);
    }
}

/// A sanitized label has at most 60 bytes and holds only ASCII letters and white space,
/// with no white space at either end.
pub proof fn sanitized_label_is_clean(label: Seq<char>)
    ensures
        sanitized_label(label) matches Some(t) ==> {
            &&& utf8_len(t) <= 60
            &&& forall|i: int| 0 <= i < t.len() ==> kept_in_label(#[trigger] t[i])
        },
{
    let f = label.filter(|c: char| kept_in_label(c));
    broadcast use vstd::seq_lib::group_filter_ensures;
    assert forall|i: int| 0 <= i < f.len() implies (|c: char| kept_in_label(c))(#[trigger] f[i]) by {
        label.lemma_filter_pred(|c: char| kept_in_label(c), i);
    }
    lemma_trimmed_keeps(f, |c: char| kept_in_label(c));
    let t = trimmed(f);
    if utf8_len(t) > 60 {
        lemma_cut_from(t, 60, 0);
        if let Some(u) = cut_from(t, 60, 0) {
            let j = choose|j: int| 0 <= j <= t.len() && u == t.take(j);
            assert forall|i: int| 0 <= i < u.len() implies kept_in_label(#[trigger] u[i]) by {
                assert(u[i] == t[i]);
                assert((|c: char| kept_in_label(c))(t[i]));
            }
        }
    } else {
        assert forall|i: int| 0 <= i < t.len() implies kept_in_label(#[trigger] t[i]) by {
            assert((|c: char| kept_in_label(c))(t[i]));
        }
    }
}

/// Where SSO configurations are created and listed: `<realm>/sso-configs`.
pub fn sso_configs_url(api_base_url: &str, tenant_id: &str, realm_id: &str) -> (r: String)
    ensures
        r@ == realm_path(api_base_url@, tenant_id@, realm_id@) + "/sso-configs"@,
{
    realm_url_with(api_base_url, tenant_id, realm_id, "/sso-configs")
}

/// Where identities are assigned to the SSO configuration `id`:
/// `<realm>/sso-configs/<id>:addIdentities`.
pub fn add_identities_url(api_base_url: &str, tenant_id: &str, realm_id: &str, id: &str) -> (r: String)
    ensures
        r@ == realm_path(api_base_url@, tenant_id@, realm_id@) + "/sso-configs/"@ + id@
            + ":addIdentities"@,
{
    realm_url_around(api_base_url, tenant_id, realm_id, "/sso-configs/", id, ":addIdentities")
}

/// A bookmark SSO configuration to create: migrated, shown as a visible tile.
#[derive(Debug)]
pub struct BookmarkRequest {
    pub display_name: String,
    pub is_migrated: bool,
    /// The type of the payload: `bookmark`.
    pub payload_type: String,
    pub login_link: String,
    pub icon: Option<String>,
    pub is_tile_visible: bool,
}

/// The bookmark to create for `name` and `login_link`, with its label sanitized; `None`
/// where the label cannot be cut (see `sanitized_label`).
pub fn bookmark_request(name: &str, login_link: String, icon_url: Option<String>) -> (r: Option<
    BookmarkRequest,
>)
    ensures
        match sanitized_label(name@) {
            None => r is None,
            Some(l) => r matches Some(b) && b.display_name@ == l && b.is_migrated
                && b.payload_type@ == "bookmark"@
                && b.login_link == login_link && b.icon == icon_url && b.is_tile_visible,
        },
{
    match sanitize_label(name) {
        Some(display_name) => Some(
            BookmarkRequest {
                display_name,
                is_migrated: true,
                payload_type: String::from_str("bookmark"),
                login_link,
                icon: icon_url,
                is_tile_visible: true,
            },
        ),
        None => None,
    }
}

/// The IDs of `identities`, in order.
pub fn identity_ids(identities: &Vec<crate::beyond_identity::identities::Identity>) -> (r: Vec<
    String,
>)
    ensures
        r@.len() == identities@.len(),
        forall|i: int| 0 <= i < r@.len() ==> #[trigger] r@[i]@ == identities@[i].id@,
{
    let mut ids: Vec<String> = Vec::new();
    let mut i: usize = 0;
    while i < identities.len()
        invariant
            i <= identities@.len(),
            ids@.len() == i,
            forall|j: int| 0 <= j < i ==> #[trigger] ids@[j]@ == identities@[j].id@,
        decreases identities@.len() - i,
    {
        ids.push(identities[i].id.clone());
        i += 1;
    }
    ids
}

} // verus!
