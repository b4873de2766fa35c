//! Identities: the resources, the requests that change them, and the fields that
//! listings can be filtered by.
use vstd::prelude::*;
use vstd::string::*;
use crate::beyond_identity::api::utils::filter::FilterField;
use crate::copies::copy_opt_string;

verus! {

/// The identity fields that `identities list --filter` can compare.
#[derive(Debug, Clone)]
pub enum IdentityFilterField {
    Username,
    DisplayName,
    PrimaryEmailAddress,
}

/// The name of each filterable identity field.
pub open spec fn identity_field_name(f: IdentityFilterField) -> Seq<char> {
    match f {
        IdentityFilterField::Username => "traits.username"@,
        IdentityFilterField::DisplayName => "display_name"@,
        IdentityFilterField::PrimaryEmailAddress => "traits.primary_email_address"@,
    }
}

impl FilterField for IdentityFilterField {
    open spec fn spec_from_name(s: Seq<char>) -> Option<Self> {
        if s == "traits.username"@ {
            Some(IdentityFilterField::Username)
        } else if s == "display_name"@ {
            Some(IdentityFilterField::DisplayName)
        } else if s == "traits.primary_email_address"@ {
            Some(IdentityFilterField::PrimaryEmailAddress)
        } else {
            None
        }
    }

    open spec fn spec_name(&self) -> Seq<char> {
        identity_field_name(*self)
    }

    open spec fn spec_parse_error(s: Seq<char>) -> Seq<char> {
        "VariantNotFound"@
    }

    fn from_name(s: &str) -> (r: Result<Self, String>) {
        let t = String::from_str(s);
        if t == String::from_str("traits.username") {
            Ok(IdentityFilterField::Username)
        } else if t == String::from_str("display_name") {
            Ok(IdentityFilterField::DisplayName)
        } else if t == String::from_str("traits.primary_email_address") {
            Ok(IdentityFilterField::PrimaryEmailAddress)
        } else {
            Err(String::from_str("VariantNotFound"))
        }
    }

    fn name(&self) -> (r: String) {
        match self {
            IdentityFilterField::Username => String::from_str("traits.username"),
            IdentityFilterField::DisplayName => String::from_str("display_name"),
            IdentityFilterField::PrimaryEmailAddress => String::from_str(
                "traits.primary_email_address",
            ),
        }
    }
}

/// Each filterable field is read back from its name.
pub proof fn field_names_read_back(f: IdentityFilterField)
    ensures
        IdentityFilterField::spec_from_name(identity_field_name(f)) == Some(f),
{
    reveal_strlit("traits.username");
    reveal_strlit("display_name");
    reveal_strlit("traits.primary_email_address");
    assert("display_name"@.len() != "traits.username"@.len());
    assert("traits.primary_email_address"@.len() != "traits.username"@.len());
    assert("traits.primary_email_address"@.len() != "display_name"@.len());
}

/// Identity filters name the API's attributes exactly as the user writes them: only
/// `traits.username`, `display_name` and `traits.primary_email_address` are read as fields,
/// and a field read from a text is written back as that same text.
pub proof fn filter_fields_are_the_api_attributes(s: Seq<char>, f: IdentityFilterField)
    ensures
        IdentityFilterField::spec_from_name(s) == Some(f) ==> f.spec_name() == s,
        IdentityFilterField::spec_from_name(s) is Some <==> (s == "traits.username"@ || s
            == "display_name"@ || s == "traits.primary_email_address"@),
{
    field_names_read_back(f);
}

/// A page of identities.
#[derive(Clone, Debug)]
pub struct Identities {
    pub identities: Vec<IdentityDetails>,
    pub total_size: usize,
}

/// An identity as the API wraps it.
#[derive(Clone, Debug)]
pub struct Identity {
    pub identity: IdentityDetails,
}

/// An identity of a realm.
#[derive(Clone, Debug)]
pub struct IdentityDetails {
    pub id: String,
    pub realm_id: String,
    pub tenant_id: String,
    /// The display name of the identity.
    pub display_name: String,
    /// The identity's administrative status.
    pub status: Option<Status>,
    pub create_time: String,
    pub update_time: String,
    pub traits: Traits,
}

/// The fields of an identity to change; a missing field is left as it is.
#[derive(Clone, Debug)]
pub struct PatchIdentityDetails {
    pub display_name: Option<String>,
    pub status: Option<Status>,
    pub traits: Option<PatchTraits>,
}

/// The traits of an identity.
#[derive(Clone, Debug)]
pub struct Traits {
    /// The version of the identity's traits (`type` on the wire).
    pub traits_type: Type,
    /// The unique username of the identity.
    pub username: String,
    /// The primary email address of the identity.
    pub primary_email_address: Option<String>,
    /// An external identifier of the identity.
    pub external_id: Option<String>,
    /// The family name (surname) of the identity.
    pub family_name: Option<String>,
    /// The given name (first name) of the identity.
    pub given_name: Option<String>,
}

impl Traits {
    /// A copy of the traits.
    pub fn duplicate(&self) -> (r: Self)
        ensures
            r == *self,
    {
        Traits {
            traits_type: self.traits_type,
            username: self.username.clone(),
            primary_email_address: copy_opt_string(&self.primary_email_address),
            external_id: copy_opt_string(&self.external_id),
            family_name: copy_opt_string(&self.family_name),
            given_name: copy_opt_string(&self.given_name),
        }
    }
}

/// The traits of an identity to change; a missing field is left as it is.
#[derive(Clone, Debug)]
pub struct PatchTraits {
    /// The version of the identity's traits (`type` on the wire).
    pub traits_type: Type,
    pub username: Option<String>,
    pub primary_email_address: Option<String>,
    pub external_id: Option<String>,
    pub family_name: Option<String>,
    pub given_name: Option<String>,
}

/// The version of an identity's traits.
#[derive(Clone, Copy, Debug, PartialEq, Eq, Structural)]
pub enum Type {
    TraitsV0,
}

/// The administrative status of an identity.
#[derive(Clone, Copy, Debug, PartialEq, Eq, Structural)]
pub enum Status {
    Active,
    Suspended,
}

} // verus!
