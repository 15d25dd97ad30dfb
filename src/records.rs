//! The records a vault holds. Each carries an identifier and audit fields
//! besides its own content.

use vstd::prelude::*;

use crate::validation::RegisterData;

verus! {

/// A user account.
#[derive(Debug, Clone, PartialEq, Default)]
pub struct User {
    pub id: Option<String>,
    pub created_at: Option<i64>,
    pub created_by: Option<String>,
    pub updated_at: Option<i64>,
    pub updated_by: Option<String>,
    pub name: String,
    pub email: String,
    pub password_hash: String,
    pub role: String,
    pub two_factor_secret: Option<String>,
}

/// A tag that records can carry.
#[derive(Debug, Clone, PartialEq, Default)]
pub struct Tag {
    pub id: Option<String>,
    pub created_at: Option<i64>,
    pub created_by: Option<String>,
    pub updated_at: Option<i64>,
    pub updated_by: Option<String>,
    pub name: String,
}

/// A free-text note.
#[derive(Debug, Clone, PartialEq, Default)]
pub struct Note {
    pub id: Option<String>,
    pub created_at: Option<i64>,
    pub created_by: Option<String>,
    pub updated_at: Option<i64>,
    pub updated_by: Option<String>,
    pub name: String,
    pub note: Option<String>,
    pub is_favorite: Option<bool>,
    /// Comma-separated tag names.
    pub tags: Option<String>,
}

/// Credentials for a site or service.
#[derive(Debug, Clone, PartialEq, Default)]
pub struct Login {
    pub id: Option<String>,
    pub created_at: Option<i64>,
    pub created_by: Option<String>,
    pub updated_at: Option<i64>,
    pub updated_by: Option<String>,
    pub name: String,
    pub note: Option<String>,
    pub username: String,
    pub url: Option<String>,
    pub password: Option<String>,
    pub password_hint: Option<String>,
    pub is_favorite: Option<bool>,
    /// Comma-separated tag names.
    pub tags: Option<String>,
    pub api_keys: Option<String>,
}

/// An identity document.
#[derive(Debug, Clone, PartialEq, Default)]
pub struct IdentityCard {
    pub id: Option<String>,
    pub created_at: Option<i64>,
    pub created_by: Option<String>,
    pub updated_at: Option<i64>,
    pub updated_by: Option<String>,
    pub name: String,
    pub note: Option<String>,
    pub country: Option<String>,
    pub expiry_date: Option<String>,
    pub identity_card_number: String,
    pub identity_card_type: Option<String>,
    pub issue_date: Option<String>,
    pub name_on_card: String,
    pub state: Option<String>,
    pub is_favorite: Option<bool>,
    /// Comma-separated tag names.
    pub tags: Option<String>,
}

/// The role of a newly registered account.
pub open spec fn default_role() -> Seq<char> {
    "user"@
}

/// The account that a registration describes: its name and email, the
/// given password in the hash field (hashing happens later), the `user`
/// role, and no identifier, audit fields or second factor.
pub open spec fn registered_user(data: RegisterData, u: User) -> bool {
    &&& u.id is None
    &&& u.created_at is None
    &&& u.created_by is None
    &&& u.updated_at is None
    &&& u.updated_by is None
    &&& u.name == data.name
    &&& u.email == data.email
    &&& u.password_hash == data.password
    &&& u.role@ == default_role()
    &&& u.two_factor_secret is None
}

impl User {
    pub fn from_registration(data: RegisterData) -> (r: User)
        ensures
            registered_user(data, r),
    {
        User {
            id: None,
            created_at: None,
            created_by: None,
            updated_at: None,
            updated_by: None,
            name: data.name,
            email: data.email,
            password_hash: data.password,
            role: "user".to_owned(),
            two_factor_secret: None,
        }
    }
}

impl From<RegisterData> for User {
    fn from(data: RegisterData) -> (r: User) {
        User::from_registration(data)
    }
}

impl vstd::std_specs::convert::FromSpecImpl<RegisterData> for User {
    open spec fn obeys_from_spec() -> bool {
        false
    }

    open spec fn from_spec(data: RegisterData) -> User {
        arbitrary()
    }
}

} // verus!
