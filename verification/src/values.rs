//! The column values that the seeder chooses for a row: everything but the
//! fields that the database generates and the keys into other tables.

use vstd::prelude::*;
use vstd::string::*;

verus! {

/// The one permission that every seeded access level grants.
pub open spec fn granted_permissions() -> Seq<Seq<char>> {
    seq!["UPDATE_ORGANIZATION"@]
}

/// The values of a new organization.
#[derive(Debug, PartialEq, Eq)]
pub struct OrganizationValues {
    pub name: String,
    pub blocked: bool,
    pub billing_email: String,
    pub billing_email_verified: bool,
}

/// The values of a new organization, over plain values.
pub ghost struct OrganizationValuesView {
    pub name: Seq<char>,
    pub blocked: bool,
    pub billing_email: Seq<char>,
    pub billing_email_verified: bool,
}

impl View for OrganizationValues {
    type V = OrganizationValuesView;

    open spec fn view(&self) -> OrganizationValuesView {
        OrganizationValuesView {
            name: self.name@,
            blocked: self.blocked,
            billing_email: self.billing_email@,
            billing_email_verified: self.billing_email_verified,
        }
    }
}

impl Clone for OrganizationValues {
    fn clone(&self) -> (r: Self)
        ensures
            r@ == self@,
    {
        OrganizationValues {
            name: self.name.clone(),
            blocked: self.blocked,
            billing_email: self.billing_email.clone(),
            billing_email_verified: self.billing_email_verified,
        }
    }
}

impl OrganizationValues {
    /// An organization that is not blocked and whose billing address counts
    /// as verified, as every seeded organization is.
    pub fn new(name: String, billing_email: String) -> (r: Self)
        ensures
            r@ == (OrganizationValuesView {
                name: name@,
                blocked: false,
                billing_email: billing_email@,
                billing_email_verified: true,
            }),
    {
        OrganizationValues { name, blocked: false, billing_email, billing_email_verified: true }
    }
}

/// The values of a new access level.
#[derive(Debug, PartialEq, Eq)]
pub struct AccessLevelValues {
    pub name: String,
    pub description: String,
    pub is_fixed: bool,
    pub permissions: Vec<String>,
}

/// The values of a new access level, over plain values.
pub ghost struct AccessLevelValuesView {
    pub name: Seq<char>,
    pub description: Seq<char>,
    pub is_fixed: bool,
    pub permissions: Seq<Seq<char>>,
}

impl View for AccessLevelValues {
    type V = AccessLevelValuesView;

    open spec fn view(&self) -> AccessLevelValuesView {
        AccessLevelValuesView {
            name: self.name@,
            description: self.description@,
            is_fixed: self.is_fixed,
            permissions: self.permissions.deep_view(),
        }
    }
}

impl Clone for AccessLevelValues {
    fn clone(&self) -> (r: Self)
        ensures
            r@ == self@,
    {
        AccessLevelValues {
            name: self.name.clone(),
            description: self.description.clone(),
            is_fixed: self.is_fixed,
            permissions: self.permissions.clone(),
        }
    }
}

impl AccessLevelValues {
    /// An access level that grants the update of its organization.
    pub fn new(name: String, description: String, is_fixed: bool) -> (r: Self)
        ensures
            r@ == (AccessLevelValuesView {
                name: name@,
                description: description@,
                is_fixed,
                permissions: granted_permissions(),
            }),
    {
        let mut permissions: Vec<String> = Vec::new();
        permissions.push(String::from_str("UPDATE_ORGANIZATION"));
        assert(permissions.deep_view() =~= granted_permissions());
        AccessLevelValues { name, description, is_fixed, permissions }
    }
}

/// The values of a new user. `password` is what is stored: a hash, never the
/// password itself.
#[derive(Debug, PartialEq, Eq)]
pub struct UserValues {
    pub username: String,
    pub email: String,
    pub email_verified: bool,
    pub password: String,
    pub description: Option<String>,
}

/// The values of a new user, over plain values.
pub ghost struct UserValuesView {
    pub username: Seq<char>,
    pub email: Seq<char>,
    pub email_verified: bool,
    pub password: Seq<char>,
    pub description: Option<Seq<char>>,
}

/// The characters of an optional string.
pub open spec fn text_of(s: Option<String>) -> Option<Seq<char>> {
    match s {
        Some(t) => Some(t@),
        None => None,
    }
}

impl View for UserValues {
    type V = UserValuesView;

    open spec fn view(&self) -> UserValuesView {
        UserValuesView {
            username: self.username@,
            email: self.email@,
            email_verified: self.email_verified,
            password: self.password@,
            description: text_of(self.description),
        }
    }
}

impl Clone for UserValues {
    fn clone(&self) -> (r: Self)
        ensures
            r@ == self@,
    {
        let description = match &self.description {
            Some(t) => Some(t.clone()),
            None => None,
        };
        UserValues {
            username: self.username.clone(),
            email: self.email.clone(),
            email_verified: self.email_verified,
            password: self.password.clone(),
            description,
        }
    }
}

impl UserValues {
    pub fn new(
        username: String,
        email: String,
        email_verified: bool,
        password: String,
        description: Option<String>,
    ) -> (r: Self)
        ensures
            r@ == (UserValuesView {
                username: username@,
                email: email@,
                email_verified,
                password: password@,
                description: text_of(description),
            }),
    {
        UserValues { username, email, email_verified, password, description }
    }
}

} // verus!
