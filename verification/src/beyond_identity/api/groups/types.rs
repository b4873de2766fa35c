//! Groups of identities, and the requests that change them.
use vstd::prelude::*;
use vstd::string::*;

verus! {

/// A page of groups.
#[derive(Clone, Debug)]
pub struct Groups {
    pub groups: Vec<Group>,
    pub total_size: usize,
}

/// A group as the API wraps it.
#[derive(Clone, Debug)]
pub struct GroupEnvelope {
    pub group: Group,
}

/// A group of identities.
#[derive(Clone, Debug)]
pub struct Group {
    pub id: String,
    pub realm_id: String,
    pub tenant_id: String,
    /// The display name of the group.
    pub display_name: String,
    /// A free-form text field to describe a group.
    pub description: String,
    pub create_time: String,
    pub update_time: String,
}

/// A request to create a group.
#[derive(Clone, Debug)]
pub struct CreateGroupRequest {
    pub group: CreateGroup,
}

/// The group to create.
#[derive(Clone, Debug)]
pub struct CreateGroup {
    pub display_name: String,
    pub description: String,
}

/// A request to change a group.
#[derive(Clone, Debug)]
pub struct PatchGroupRequest {
    pub group: PatchGroup,
}

/// The group to change and the fields to set; a missing field is left as it is.
#[derive(Clone, Debug)]
pub struct PatchGroup {
    pub id: String,
    pub display_name: Option<String>,
    pub description: Option<String>,
}

/// The identities to add as members to a group.
#[derive(Clone, Debug)]
pub struct AddMembersRequest {
    pub identity_ids: Vec<String>,
}

/// The identities to remove from a group.
#[derive(Clone, Debug)]
pub struct DeleteMembersRequest {
    pub identity_ids: Vec<String>,
}

/// The request that removes one identity from a group.
pub fn delete_member_request(identity_id: &str) -> (r: DeleteMembersRequest)
    ensures
        r.identity_ids@.len() == 1,
        r.identity_ids@[0]@ == identity_id@,
{
    let mut ids: Vec<String> = Vec::new();
    ids.push(String::from_str(identity_id));
    DeleteMembersRequest { identity_ids: ids }
}

} // verus!
