//! The rows of the schema, as the database holds them.
//!
//! Points in time are microseconds since the Unix epoch, in UTC.

use crate::schema::Geometry;
use crate::values::{
    text_of, AccessLevelValues, AccessLevelValuesView, OrganizationValues,
    OrganizationValuesView, UserValues, UserValuesView,
};
use vstd::prelude::*;

verus! {

/// An address range of the `ipnetwork` crate, carried as it is.
#[verifier::external_type_specification]
#[verifier::external_body]
pub struct ExIpNetwork(ipnetwork::IpNetwork);

/// A named set of permissions, global (`organization_id` is `None`) or of one
/// organization.
#[derive(Debug, PartialEq, Eq)]
pub struct AccessLevel {
    pub id: i32,
    pub created_at: i64,
    pub name: String,
    pub description: String,
    pub is_fixed: bool,
    pub permissions: Vec<Option<String>>,
    pub organization_id: Option<i32>,
}

/// An access level row, over plain values.
pub ghost struct AccessLevelView {
    pub id: i32,
    pub created_at: i64,
    pub name: Seq<char>,
    pub description: Seq<char>,
    pub is_fixed: bool,
    pub permissions: Seq<Option<Seq<char>>>,
    pub organization_id: Option<i32>,
}

impl View for AccessLevel {
    type V = AccessLevelView;

    open spec fn view(&self) -> AccessLevelView {
        AccessLevelView {
            id: self.id,
            created_at: self.created_at,
            name: self.name@,
            description: self.description@,
            is_fixed: self.is_fixed,
            permissions: Seq::new(self.permissions@.len(), |i: int| text_of(self.permissions@[i])),
            organization_id: self.organization_id,
        }
    }
}

impl AccessLevelView {
    /// The row of a new access level: each permission of `values`, none of
    /// them null.
    pub open spec fn created(
        values: AccessLevelValuesView,
        organization_id: Option<i32>,
        id: i32,
        created_at: i64,
    ) -> Self {
        AccessLevelView {
            id,
            created_at,
            name: values.name,
            description: values.description,
            is_fixed: values.is_fixed,
            permissions: Seq::new(values.permissions.len(), |i: int| Some(values.permissions[i])),
            organization_id,
        }
    }
}

impl AccessLevel {
    /// The row that an insert of `values` under the key `organization_id`
    /// leaves, once the database has assigned `id` and `created_at`.
    pub fn created(
        values: AccessLevelValues,
        organization_id: Option<i32>,
        id: i32,
        created_at: i64,
    ) -> (r: Self)
        ensures
            r@ == AccessLevelView::created(values@, organization_id, id, created_at),
    {
        let AccessLevelValues { name, description, is_fixed, permissions: granted } = values;
        let mut permissions: Vec<Option<String>> = Vec::new();
        let n = granted.len();
        let mut i: usize = 0;
        while i < n
            invariant
                i <= n,
                n == granted@.len(),
                permissions@.len() == i,
                forall|j: int| 0 <= j < i ==> permissions@[j] == Some(granted@[j]),
            decreases n - i,
        {
            permissions.push(Some(granted[i].clone()));
            i = i + 1;
        }
        let r = AccessLevel {
            id,
            created_at,
            name,
            description,
            is_fixed,
            permissions,
            organization_id,
        };
        assert(r@.permissions =~= AccessLevelView::created(
            values@,
            organization_id,
            id,
            created_at,
        ).permissions);
        r
    }
}

/// A customer of the platform. `owner_id`, once set, is the user that
/// administers the organization.
#[derive(Debug, PartialEq, Eq)]
pub struct Organization {
    pub id: i32,
    pub created_at: i64,
    pub name: String,
    pub blocked: bool,
    pub billing_email: String,
    pub billing_email_verified: bool,
    pub confirm_billing_email_token: Option<String>,
    pub owner_id: Option<i32>,
}

/// An organization row, over plain values.
pub ghost struct OrganizationView {
    pub id: i32,
    pub created_at: i64,
    pub name: Seq<char>,
    pub blocked: bool,
    pub billing_email: Seq<char>,
    pub billing_email_verified: bool,
    pub confirm_billing_email_token: Option<Seq<char>>,
    pub owner_id: Option<i32>,
}

impl View for Organization {
    type V = OrganizationView;

    open spec fn view(&self) -> OrganizationView {
        OrganizationView {
            id: self.id,
            created_at: self.created_at,
            name: self.name@,
            blocked: self.blocked,
            billing_email: self.billing_email@,
            billing_email_verified: self.billing_email_verified,
            confirm_billing_email_token: text_of(self.confirm_billing_email_token),
            owner_id: self.owner_id,
        }
    }
}

impl OrganizationView {
    /// The row of a new organization: it has no owner yet.
    pub open spec fn created(values: OrganizationValuesView, id: i32, created_at: i64) -> Self {
        OrganizationView {
            id,
            created_at,
            name: values.name,
            blocked: values.blocked,
            billing_email: values.billing_email,
            billing_email_verified: values.billing_email_verified,
            confirm_billing_email_token: None,
            owner_id: None,
        }
    }

    /// The row once `owner_id` administers the organization.
    pub open spec fn owned_by(self, owner_id: i32) -> Self {
        OrganizationView { owner_id: Some(owner_id), ..self }
    }
}

impl Organization {
    /// The row that an insert of `values` leaves, once the database has
    /// assigned `id` and `created_at`.
    pub fn created(values: OrganizationValues, id: i32, created_at: i64) -> (r: Self)
        ensures
            r@ == OrganizationView::created(values@, id, created_at),
    {
        Organization {
            id,
            created_at,
            name: values.name,
            blocked: values.blocked,
            billing_email: values.billing_email,
            billing_email_verified: values.billing_email_verified,
            confirm_billing_email_token: None,
            owner_id: None,
        }
    }

    /// The row after its owner was set to `owner_id`.
    pub fn owned_by(self, owner_id: i32) -> (r: Self)
        ensures
            r@ == self@.owned_by(owner_id),
    {
        Organization { owner_id: Some(owner_id), ..self }
    }
}

/// An account. One without an organization is an account of the platform's
/// operators.
#[derive(Debug, PartialEq, Eq)]
pub struct User {
    pub id: i32,
    pub created_at: i64,
    pub username: String,
    pub email: String,
    pub email_verified: bool,
    pub password: String,
    pub reset_password_token: Option<String>,
    pub confirm_email_token: Option<String>,
    pub profile_picture: Option<String>,
    pub description: Option<String>,
    pub organization_id: Option<i32>,
    pub access_level_id: i32,
}

/// A user row, over plain values.
pub ghost struct UserView {
    pub id: i32,
    pub created_at: i64,
    pub username: Seq<char>,
    pub email: Seq<char>,
    pub email_verified: bool,
    pub password: Seq<char>,
    pub description: Option<Seq<char>>,
    pub reset_password_token: Option<Seq<char>>,
    pub confirm_email_token: Option<Seq<char>>,
    pub profile_picture: Option<Seq<char>>,
    pub organization_id: Option<i32>,
    pub access_level_id: i32,
}

impl View for User {
    type V = UserView;

    open spec fn view(&self) -> UserView {
        UserView {
            id: self.id,
            created_at: self.created_at,
            username: self.username@,
            email: self.email@,
            email_verified: self.email_verified,
            password: self.password@,
            description: text_of(self.description),
            reset_password_token: text_of(self.reset_password_token),
            confirm_email_token: text_of(self.confirm_email_token),
            profile_picture: text_of(self.profile_picture),
            organization_id: self.organization_id,
            access_level_id: self.access_level_id,
        }
    }
}

impl UserView {
    /// The row of a new user: no token is outstanding and no picture is set.
    pub open spec fn created(
        values: UserValuesView,
        organization_id: Option<i32>,
        access_level_id: i32,
        id: i32,
        created_at: i64,
    ) -> Self {
        UserView {
            id,
            created_at,
            username: values.username,
            email: values.email,
            email_verified: values.email_verified,
            password: values.password,
            description: values.description,
            reset_password_token: None,
            confirm_email_token: None,
            profile_picture: None,
            organization_id,
            access_level_id,
        }
    }
}

impl User {
    /// The row that an insert of `values` under the two keys leaves, once the
    /// database has assigned `id` and `created_at`.
    pub fn created(
        values: UserValues,
        organization_id: Option<i32>,
        access_level_id: i32,
        id: i32,
        created_at: i64,
    ) -> (r: Self)
        ensures
            r@ == UserView::created(values@, organization_id, access_level_id, id, created_at),
    {
        User {
            id,
            created_at,
            username: values.username,
            email: values.email,
            email_verified: values.email_verified,
            password: values.password,
            reset_password_token: None,
            confirm_email_token: None,
            profile_picture: None,
            description: values.description,
            organization_id,
            access_level_id,
        }
    }
}

/// A SIM card of an organization, in a tracker or not.
#[derive(Debug)]
pub struct SimCard {
    pub id: i32,
    pub created_at: i64,
    pub phone_number: String,
    pub ssn: String,
    pub apn_address: String,
    pub apn_user: String,
    pub apn_password: String,
    pub pin: Option<String>,
    pub pin2: Option<String>,
    pub puk: Option<String>,
    pub puk2: Option<String>,
    pub organization_id: i32,
    pub tracker_id: Option<i32>,
}

/// A vehicle of an organization.
#[derive(Debug)]
pub struct Vehicle {
    pub id: i32,
    pub created_at: i64,
    pub plate: String,
    pub photo: Option<String>,
    pub model_year: Option<i16>,
    pub fabrication_year: Option<i16>,
    pub chassis_number: Option<String>,
    pub brand: Option<String>,
    pub model: Option<String>,
    pub color: Option<String>,
    pub additional_info: Option<String>,
    pub organization_id: i32,
}

/// A tracker of an organization, installed in a vehicle or not.
#[derive(Debug)]
pub struct VehicleTracker {
    pub id: i32,
    pub created_at: i64,
    pub model: String,
    pub imei: String,
    pub organization_id: i32,
    pub vehicle_id: Option<i32>,
}

/// The latest position that a tracker reported.
#[derive(Debug)]
pub struct VehicleTrackerLastLocation {
    pub tracker_id: i32,
    pub time: i64,
    pub point: Geometry,
}

/// A position that a tracker reported.
#[derive(Debug)]
pub struct VehicleTrackerLocation {
    pub time: i64,
    pub tracker_id: i32,
    pub point: Geometry,
}

/// A login of a user.
#[derive(Debug)]
pub struct Session {
    pub public_id: i32,
    pub session_token: Vec<u8>,
    pub created_at: i64,
    pub expires_at: i64,
    pub user_agent: String,
    pub ip: ipnetwork::IpNetwork,
    pub user_id: i32,
}

} // verus!
