//! The helper commands that act on the API client's default tenant and realm.
use vstd::prelude::*;
use crate::beyond_identity::commands::{
    deletion_plan, forced_sets, reviewed_set, DeletionPlan, IdentitySet,
};

verus! {

/// Helper commands for administrative and user-related actions.
pub enum BeyondIdentityHelperCommands {
    /// Creates an administrator account.
    CreateAdminAccount(CreateAdminAccount),
    /// Deletes identities of the realm, after unassigning them from roles and groups.
    DeleteAllIdentities(DeleteAllIdentities),
    /// Sends enrollment emails to identities the operator picks.
    SendEnrollmentEmail(SendEnrollmentEmail),
    /// Lists the identities that have not enrolled yet.
    ReviewUnenrolled(ReviewUnenrolled),
}

/// Arguments of `create-admin-account`.
pub struct CreateAdminAccount {
    /// Email address of the admin to be created.
    pub email: String,
}

/// Arguments of `delete-all-identities`: exactly one of `all`, `norole` and `unenrolled`
/// as the command line takes them.
pub struct DeleteAllIdentities {
    pub all: bool,
    pub norole: bool,
    pub unenrolled: bool,
    /// Skip the review when deleting identities.
    pub force: bool,
}

/// Arguments of `send-enrollment-email`: `all` or `groups`, and whether only unenrolled
/// identities are offered.
pub struct SendEnrollmentEmail {
    pub all: bool,
    pub groups: bool,
    pub unenrolled: bool,
}

/// Arguments of `review-unenrolled`: none.
pub struct ReviewUnenrolled;

impl DeleteAllIdentities {
    /// What the command deletes: see `deletion_plan`.
    pub fn plan(&self) -> (r: DeletionPlan)
        ensures
            self.force ==> (r matches DeletionPlan::Direct(v) && v@ == forced_sets(
                self.all,
                self.norole,
                self.unenrolled,
            )),
            !self.force ==> (r matches DeletionPlan::Reviewed(s) && s == reviewed_set(
                self.all,
                self.norole,
                self.unenrolled,
            )),
    {
        deletion_plan(self.all, self.norole, self.unenrolled, self.force)
    }
}

/// The identities offered: every identity (`all`) or a group's members (`groups`, which
/// wins), restricted to the unenrolled ones with `unenrolled`.
pub open spec fn offered_set(all: bool, groups: bool, unenrolled: bool) -> Option<IdentitySet> {
    if groups {
        Some(if unenrolled { IdentitySet::UnenrolledGroupMembers } else { IdentitySet::GroupMembers })
    } else if all {
        Some(if unenrolled { IdentitySet::Unenrolled } else { IdentitySet::All })
    } else {
        None
    }
}

/// Each flag of the helper's `send-enrollment-email` selects its own set: `--all` every
/// identity, `--groups` a group's members (over `--all`), and `--unenrolled` narrows the set
/// chosen to its unenrolled identities; with neither `--all` nor `--groups` nothing is
/// offered.
pub proof fn offered_flags_select_their_set(all: bool, groups: bool, unenrolled: bool)
    ensures
        offered_set(true, false, false) == Some(IdentitySet::All),
        offered_set(false, true, false) == Some(IdentitySet::GroupMembers),
        offered_set(true, false, true) == Some(IdentitySet::Unenrolled),
        offered_set(false, true, true) == Some(IdentitySet::UnenrolledGroupMembers),
        groups ==> (offered_set(all, groups, unenrolled) matches Some(s) && (s
            == IdentitySet::GroupMembers || s == IdentitySet::UnenrolledGroupMembers)),
        unenrolled ==> (offered_set(all, groups, unenrolled) is None || offered_set(
            all,
            groups,
            unenrolled,
        ) == Some(IdentitySet::Unenrolled) || offered_set(all, groups, unenrolled) == Some(
            IdentitySet::UnenrolledGroupMembers,
        )),
        offered_set(all, groups, unenrolled) is None <==> (!all && !groups),
{
}

impl SendEnrollmentEmail {
    /// The identities the command offers for its flags.
    pub fn targets(&self) -> (r: Option<IdentitySet>)
        ensures
            r == offered_set(self.all, self.groups, self.unenrolled),
    {
        if self.groups {
            if self.unenrolled {
                Some(IdentitySet::UnenrolledGroupMembers)
            } else {
                Some(IdentitySet::GroupMembers)
            }
        } else if self.all {
            if self.unenrolled {
                Some(IdentitySet::Unenrolled)
            } else {
                Some(IdentitySet::All)
            }
        } else {
            None
        }
    }
}

} // verus!
