//! The helper commands and what each of them fetches, reviews and deletes.
use vstd::prelude::*;
use vstd::string::*;
use crate::beyond_identity::identities::{email_or_placeholder, Identity};
use crate::text::{decimal, u64_to_decimal};

verus! {

/// The helper commands.
pub enum BeyondIdentityHelperCommands {
    /// Provisions configuration for an existing tenant.
    Setup(SetupAction),
    /// Creates an application that performs inbound SCIM from an external identity provider.
    CreateScimApp { okta_registration_sync_attribute: String },
    /// Creates an OIDC application through which Okta identities authenticate.
    CreateExternalSSOConnection,
    /// Creates an administrator account.
    CreateAdminAccount { email: String },
    /// Deletes identities of the realm, after unassigning them from roles and groups.
    DeleteAllIdentities { all: bool, norole: bool, unenrolled: bool, force: bool },
    /// Gets a bearer token.
    GetToken,
    /// Sends enrollment emails.
    SendEnrollmentEmail { all: bool, unenrolled: bool, groups: bool },
    /// Deletes the realm's SSO configurations.
    DeleteAllSSOConfigs,
    /// Lists the identities that have not enrolled yet.
    ReviewUnenrolled,
}

/// The actions of the `setup` command.
pub enum SetupAction {
    /// Provisions an existing tenant using the given API token.
    ProvisionTenant { token: String },
    /// Lists all provisioned tenants.
    ListTenants,
    /// Updates which tenant is the default one.
    SetDefaultTenant,
    /// Deletes provisioned tenants.
    DeleteTenant,
}

/// A set of the realm's identities that a command acts on.
#[derive(Clone, Copy, Debug, PartialEq, Eq, Structural)]
pub enum IdentitySet {
    /// Every identity.
    All,
    /// The identities with no credential in the realm.
    Unenrolled,
    /// The identities that hold no role.
    WithoutRole,
    /// The members of a group the operator picks.
    GroupMembers,
    /// The members of a group the operator picks that have no credential in the realm.
    UnenrolledGroupMembers,
}

/// How identities are deleted: each set in turn, without review (`--force`); or the one
/// set listed for the operator to pick from (`None`: nothing is listed).
#[derive(Clone, Debug)]
pub enum DeletionPlan {
    Direct(Vec<IdentitySet>),
    Reviewed(Option<IdentitySet>),
}

/// The sets deleted without review: every identity, the unenrolled ones, those without a
/// role, in that order, each where its flag is given.
pub open spec fn forced_sets(all: bool, norole: bool, unenrolled: bool) -> Seq<IdentitySet> {
    (if all { seq![IdentitySet::All] } else { seq![] }) + (if unenrolled {
        seq![IdentitySet::Unenrolled]
    } else {
        seq![]
    }) + (if norole { seq![IdentitySet::WithoutRole] } else { seq![] })
}

/// The set listed for review: the last flag given among `--all`, `--unenrolled` and
/// `--norole` wins.
pub open spec fn reviewed_set(all: bool, norole: bool, unenrolled: bool) -> Option<IdentitySet> {
    if norole {
        Some(IdentitySet::WithoutRole)
    } else if unenrolled {
        Some(IdentitySet::Unenrolled)
    } else if all {
        Some(IdentitySet::All)
    } else {
        None
    }
}

/// What `delete-all-identities` does with its flags.
pub fn deletion_plan(all: bool, norole: bool, unenrolled: bool, force: bool) -> (r: DeletionPlan)
    ensures
        force ==> (r matches DeletionPlan::Direct(v) && v@ == forced_sets(all, norole, unenrolled)),
        !force ==> (r matches DeletionPlan::Reviewed(s) && s == reviewed_set(all, norole, unenrolled)),
{
    if force {
        let mut v: Vec<IdentitySet> = Vec::new();
        if all {
            v.push(IdentitySet::All);
        }
        if unenrolled {
            v.push(IdentitySet::Unenrolled);
        }
        if norole {
            v.push(IdentitySet::WithoutRole);
        }
        assert(v@ =~= forced_sets(all, norole, unenrolled));
        DeletionPlan::Direct(v)
    } else if norole {
        DeletionPlan::Reviewed(Some(IdentitySet::WithoutRole))
    } else if unenrolled {
        DeletionPlan::Reviewed(Some(IdentitySet::Unenrolled))
    } else if all {
        DeletionPlan::Reviewed(Some(IdentitySet::All))
    } else {
        DeletionPlan::Reviewed(None)
    }
}

/// With `--force`, each flagged set is deleted exactly once, and every identity in the
/// realm only where `--all` is given; without it, at most one set is listed, and one is
/// listed exactly where some flag is given.
pub proof fn deletion_follows_the_flags(all: bool, norole: bool, unenrolled: bool)
    ensures
        forced_sets(all, norole, unenrolled).contains(IdentitySet::All) <==> all,
        forced_sets(all, norole, unenrolled).contains(IdentitySet::Unenrolled) <==> unenrolled,
        forced_sets(all, norole, unenrolled).contains(IdentitySet::WithoutRole) <==> norole,
        forced_sets(all, norole, unenrolled).no_duplicates(),
        reviewed_set(all, norole, unenrolled) is Some <==> (all || norole || unenrolled),
{
    let a: Seq<IdentitySet> = if all { seq![IdentitySet::All] } else { seq![] };
    let u: Seq<IdentitySet> = if unenrolled { seq![IdentitySet::Unenrolled] } else { seq![] };
    let n: Seq<IdentitySet> = if norole { seq![IdentitySet::WithoutRole] } else { seq![] };
    let f = forced_sets(all, norole, unenrolled);
    assert(f == a + u + n);
    assert(forall|i: int| 0 <= i < f.len() ==> (#[trigger] f[i] == IdentitySet::All ==> all));
    assert(forall|i: int| 0 <= i < f.len() ==> (#[trigger] f[i] == IdentitySet::Unenrolled ==> unenrolled));
    assert(forall|i: int| 0 <= i < f.len() ==> (#[trigger] f[i] == IdentitySet::WithoutRole ==> norole));
    if all {
        assert(f[0] == IdentitySet::All);
    }
    if unenrolled {
        assert(f[a.len() as int] == IdentitySet::Unenrolled);
    }
    if norole {
        assert(f[(a.len() + u.len()) as int] == IdentitySet::WithoutRole);
    }
    assert forall|i: int, j: int| 0 <= i < f.len() && 0 <= j < f.len() && i != j implies f[i] != f[j] by {
        if i < a.len() {
            assert(f[i] == IdentitySet::All);
        } else if i < a.len() + u.len() {
            assert(f[i] == IdentitySet::Unenrolled);
        } else {
            assert(f[i] == IdentitySet::WithoutRole);
        }
        if j < a.len() {
            assert(f[j] == IdentitySet::All);
        } else if j < a.len() + u.len() {
            assert(f[j] == IdentitySet::Unenrolled);
        } else {
            assert(f[j] == IdentitySet::WithoutRole);
        }
    }
}

/// A step of deleting identities, by their index among those deleted and the index of a
/// resource server: leave every group, leave the roles of a resource server, or delete the
/// identity.
#[derive(Clone, Copy, Debug, PartialEq, Eq, Structural)]
pub enum DeletionStep {
    LeaveGroups(usize),
    LeaveRoles(usize, usize),
    Delete(usize),
}

/// How the identity `i` leaves its groups and then the roles of each of `servers` resource
/// servers.
pub open spec fn leave_steps(i: usize, servers: nat) -> Seq<DeletionStep> {
    seq![DeletionStep::LeaveGroups(i)] + Seq::new(servers, |j: int| DeletionStep::LeaveRoles(i, j as usize))
}

/// The memberships of the first `n` identities left, identity after identity.
pub open spec fn membership_steps(n: nat, servers: nat) -> Seq<DeletionStep>
    decreases n,
{
    if n == 0 {
        seq![]
    } else {
        membership_steps((n - 1) as nat, servers) + leave_steps((n - 1) as usize, servers)
    }
}

/// The steps of deleting `n` reviewed identities: first every identity leaves its groups and
/// roles, then every identity is deleted, in order.
pub open spec fn reviewed_deletion_steps(n: nat, servers: nat) -> Seq<DeletionStep> {
    membership_steps(n, servers) + Seq::new(n, |i: int| DeletionStep::Delete(i as usize))
}

/// The steps of deleting the `n` identities the operator selected, with `servers` resource
/// servers; none where nothing was selected.
pub fn reviewed_deletion(n: usize, servers: usize) -> (r: Vec<DeletionStep>)
    ensures
        r@ == reviewed_deletion_steps(n as nat, servers as nat),
{
    let mut steps: Vec<DeletionStep> = Vec::new();
    let mut i: usize = 0;
    while i < n
        invariant
            i <= n,
            steps@ == membership_steps(i as nat, servers as nat),
        decreases n - i,
    {
        let ghost before = steps@;
        steps.push(DeletionStep::LeaveGroups(i));
        let mut j: usize = 0;
        while j < servers
            invariant
                j <= servers,
                i < n,
                steps@ == before + seq![DeletionStep::LeaveGroups(i)] + Seq::new(
                    j as nat,
                    |k: int| DeletionStep::LeaveRoles(i, k as usize),
                ),
            decreases servers - j,
        {
            steps.push(DeletionStep::LeaveRoles(i, j));
            j += 1;
            assert(Seq::new(j as nat, |k: int| DeletionStep::LeaveRoles(i, k as usize)) =~= Seq::new(
                (j - 1) as nat,
                |k: int| DeletionStep::LeaveRoles(i, k as usize),
            ).push(DeletionStep::LeaveRoles(i, (j - 1) as usize)));
        }
        assert(steps@ =~= before + leave_steps(i, servers as nat));
        i += 1;
    }
    let mut k: usize = 0;
    let ghost members = steps@;
    while k < n
        invariant
            k <= n,
            steps@ == members + Seq::new(k as nat, |t: int| DeletionStep::Delete(t as usize)),
        decreases n - k,
    {
        steps.push(DeletionStep::Delete(k));
        k += 1;
        assert(Seq::new(k as nat, |t: int| DeletionStep::Delete(t as usize)) =~= Seq::new(
            (k - 1) as nat,
            |t: int| DeletionStep::Delete(t as usize),
        ).push(DeletionStep::Delete((k - 1) as usize)));
    }
    steps
}

/// The steps of a sweep for the identity `i` it deletes: it leaves its groups and roles,
/// then it is deleted.
pub fn sweep_deletion(i: usize, servers: usize) -> (r: Vec<DeletionStep>)
    ensures
        r@ == leave_steps(i, servers as nat).push(DeletionStep::Delete(i)),
{
    let mut steps: Vec<DeletionStep> = Vec::new();
    steps.push(DeletionStep::LeaveGroups(i));
    let mut j: usize = 0;
    while j < servers
        invariant
            j <= servers,
            steps@ == seq![DeletionStep::LeaveGroups(i)] + Seq::new(
                j as nat,
                |k: int| DeletionStep::LeaveRoles(i, k as usize),
            ),
        decreases servers - j,
    {
        steps.push(DeletionStep::LeaveRoles(i, j));
        j += 1;
        assert(Seq::new(j as nat, |k: int| DeletionStep::LeaveRoles(i, k as usize)) =~= Seq::new(
            (j - 1) as nat,
            |k: int| DeletionStep::LeaveRoles(i, k as usize),
        ).push(DeletionStep::LeaveRoles(i, (j - 1) as usize)));
    }
    steps.push(DeletionStep::Delete(i));
    steps
}

proof fn lemma_memberships_delete_nothing(n: nat, servers: nat)
    ensures
        forall|k: int| 0 <= k < membership_steps(n, servers).len() ==> !(#[trigger] membership_steps(n, servers)[k] is Delete),
        forall|k: int| 0 <= k < membership_steps(n, servers).len() ==> (
            #[trigger] membership_steps(n, servers)[k] matches DeletionStep::LeaveGroups(i) && i < n)
            || (membership_steps(n, servers)[k] matches DeletionStep::LeaveRoles(i, j) && i < n && j < servers),
    decreases n,
{
    if n > 0 {
        lemma_memberships_delete_nothing((n - 1) as nat, servers);
        let prev = membership_steps((n - 1) as nat, servers);
        let last = leave_steps((n - 1) as usize, servers);
        assert forall|k: int| 0 <= k < membership_steps(n, servers).len() implies !(
        #[trigger] membership_steps(n, servers)[k] is Delete) by {
            if k >= prev.len() {
                assert(membership_steps(n, servers)[k] == last[k - prev.len()]);
            }
        }
        assert forall|k: int| 0 <= k < membership_steps(n, servers).len() implies (
            #[trigger] membership_steps(n, servers)[k] matches DeletionStep::LeaveGroups(i) && i < n)
            || (membership_steps(n, servers)[k] matches DeletionStep::LeaveRoles(i, j) && i < n && j < servers) by {
            if k >= prev.len() {
                assert(membership_steps(n, servers)[k] == last[k - prev.len()]);
            }
        }
    }
}

/// Reviewed identities are deleted only once every one of them has left its groups and
/// roles: the steps are the membership steps, all about the selected identities and none a
/// deletion, followed by one deletion of each identity, in order. With nothing selected
/// there is nothing to do.
pub proof fn memberships_are_left_before_deletion(n: nat, servers: nat)
    ensures
        ({
            let steps = reviewed_deletion_steps(n, servers);
            let m = membership_steps(n, servers).len();
            &&& steps.len() == m + n
            &&& forall|k: int| 0 <= k < m ==> !(#[trigger] steps[k] is Delete)
            &&& forall|k: int| m <= k < m + n ==> #[trigger] steps[k] == DeletionStep::Delete((k - m) as usize)
        }),
        n == 0 ==> reviewed_deletion_steps(n, servers).len() == 0,
{
    lemma_memberships_delete_nothing(n, servers);
    let steps = reviewed_deletion_steps(n, servers);
    let m = membership_steps(n, servers).len();
    assert forall|k: int| 0 <= k < m implies !(#[trigger] steps[k] is Delete) by {
        assert(steps[k] == membership_steps(n, servers)[k]);
    }
}

/// Without `--force`, each flag of `delete-all-identities` given alone lists its own set
/// (`--all` every identity, `--unenrolled` the unenrolled ones, `--norole` those without a
/// role), and among several the last one handled wins: `--norole`, then `--unenrolled`. With
/// `--force`, the flagged sets are deleted in the order every identity, the unenrolled ones,
/// those without a role.
pub proof fn each_deletion_flag_selects_its_set(all: bool, norole: bool, unenrolled: bool)
    ensures
        reviewed_set(true, false, false) == Some(IdentitySet::All),
        reviewed_set(false, false, true) == Some(IdentitySet::Unenrolled),
        reviewed_set(false, true, false) == Some(IdentitySet::WithoutRole),
        norole ==> reviewed_set(all, norole, unenrolled) == Some(IdentitySet::WithoutRole),
        !norole && unenrolled ==> reviewed_set(all, norole, unenrolled) == Some(
            IdentitySet::Unenrolled,
        ),
        forced_sets(true, true, true) == seq![
            IdentitySet::All,
            IdentitySet::Unenrolled,
            IdentitySet::WithoutRole,
        ],
        forall|i: int, j: int|
            0 <= i < j < forced_sets(all, norole, unenrolled).len() ==> (#[trigger] forced_sets(
                all,
                norole,
                unenrolled,
            )[i] == IdentitySet::All || #[trigger] forced_sets(all, norole, unenrolled)[j]
                == IdentitySet::WithoutRole),
{
    let a: Seq<IdentitySet> = if all { seq![IdentitySet::All] } else { seq![] };
    let u: Seq<IdentitySet> = if unenrolled { seq![IdentitySet::Unenrolled] } else { seq![] };
    let n: Seq<IdentitySet> = if norole { seq![IdentitySet::WithoutRole] } else { seq![] };
    let f = forced_sets(all, norole, unenrolled);
    assert(f == a + u + n);
    assert(forced_sets(true, true, true) =~= seq![
        IdentitySet::All,
        IdentitySet::Unenrolled,
        IdentitySet::WithoutRole,
    ]);
}

/// The identities that `send-enrollment-email` offers: the last flag given among
/// `--all`, `--unenrolled` and `--groups` wins.
pub open spec fn enrollment_set(all: bool, unenrolled: bool, groups: bool) -> Option<IdentitySet> {
    if groups {
        Some(IdentitySet::GroupMembers)
    } else if unenrolled {
        Some(IdentitySet::Unenrolled)
    } else if all {
        Some(IdentitySet::All)
    } else {
        None
    }
}

/// Each flag of `send-enrollment-email` selects its own set: `--all` every identity,
/// `--unenrolled` the unenrolled ones, `--groups` a group's members. Given together,
/// `--groups` wins over the others and `--unenrolled` over `--all`; with no flag nothing is
/// offered.
pub proof fn each_enrollment_flag_selects_its_set(all: bool, unenrolled: bool, groups: bool)
    ensures
        enrollment_set(true, false, false) == Some(IdentitySet::All),
        enrollment_set(false, true, false) == Some(IdentitySet::Unenrolled),
        enrollment_set(false, false, true) == Some(IdentitySet::GroupMembers),
        groups ==> enrollment_set(all, unenrolled, groups) == Some(IdentitySet::GroupMembers),
        !groups && unenrolled ==> enrollment_set(all, unenrolled, groups) == Some(
            IdentitySet::Unenrolled,
        ),
        enrollment_set(all, unenrolled, groups) is None <==> (!all && !unenrolled && !groups),
{
}

/// The identities that `send-enrollment-email` offers for its flags.
pub fn enrollment_targets(all: bool, unenrolled: bool, groups: bool) -> (r: Option<IdentitySet>)
    ensures
        r == enrollment_set(all, unenrolled, groups),
{
    if groups {
        Some(IdentitySet::GroupMembers)
    } else if unenrolled {
        Some(IdentitySet::Unenrolled)
    } else if all {
        Some(IdentitySet::All)
    } else {
        None
    }
}

/// The heading of the list of unenrolled identities:
/// `<count> identities have not completed enrollment yet:`.
pub fn unenrolled_heading(count: u64) -> (r: String)
    ensures
        r@ == decimal(count as nat) + " identities have not completed enrollment yet:"@,
{
    let mut s = u64_to_decimal(count);
    s.append(" identities have not completed enrollment yet:");
    s
}

/// How an unenrolled identity is listed: `<email> - <id>`, with `<no email provided>` for
/// an identity without an address.
pub fn unenrolled_line(identity: &Identity) -> (r: String)
    ensures
        r@ == email_or_placeholder(identity.traits) + " - "@ + identity.id@,
{
    let mut s = crate::beyond_identity::identities::email_label(identity);
    s.append(" - ");
    s.append(identity.id.as_str());
    s
}

} // verus!
