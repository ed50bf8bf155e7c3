//! The accounts of a run: which rows each one takes and with which values.
//!
//! An account is one user with the access level made for it and, unless it
//! is an account of the platform's operators, the organization made for it.
//! Accounts share no rows.

use crate::error::SeedError;
use crate::password::{hash_password, is_hash_of, HASH_COST};
use crate::supply::{
    fake_boolean, fake_company_name, fake_password, fake_safe_email, fake_username, fake_word,
    is_phrase, is_word, words,
};
use crate::values::{
    granted_permissions, AccessLevelValues, AccessLevelValuesView, OrganizationValues,
    OrganizationValuesView, UserValues, UserValuesView,
};
use vstd::prelude::*;
use vstd::string::*;

verus! {

/// The organization of an account. Where it is `owned`, the account's user
/// becomes its owner once that user exists.
#[derive(Debug, PartialEq, Eq)]
pub struct AccountOrganization {
    pub values: OrganizationValues,
    pub owned: bool,
}

/// The organization of an account, over plain values.
pub ghost struct AccountOrganizationView {
    pub values: OrganizationValuesView,
    pub owned: bool,
}

impl View for AccountOrganization {
    type V = AccountOrganizationView;

    open spec fn view(&self) -> AccountOrganizationView {
        AccountOrganizationView { values: self.values@, owned: self.owned }
    }
}

/// One account to seed.
#[derive(Debug, PartialEq, Eq)]
pub struct Account {
    pub organization: Option<AccountOrganization>,
    pub access_level: AccessLevelValues,
    pub user: UserValues,
}

/// One account to seed, over plain values.
pub ghost struct AccountView {
    pub organization: Option<AccountOrganizationView>,
    pub access_level: AccessLevelValuesView,
    pub user: UserValuesView,
}

impl View for Account {
    type V = AccountView;

    open spec fn view(&self) -> AccountView {
        AccountView {
            organization: match self.organization {
                Some(o) => Some(o@),
                None => None,
            },
            access_level: self.access_level@,
            user: self.user@,
        }
    }
}

impl AccountView {
    /// The user becomes the owner of the account's organization.
    pub open spec fn owns(self) -> bool {
        self.organization matches Some(o) && o.owned
    }
}

impl Account {
    /// An account of the platform's operators: a global access level and a
    /// user outside every organization.
    pub fn privileged(access_level: AccessLevelValues, user: UserValues) -> (r: Self)
        ensures
            r@ == (AccountView { organization: None, access_level: access_level@, user: user@ }),
    {
        Account { organization: None, access_level, user }
    }

    /// An account in an organization of its own, which is left without an
    /// owner.
    pub fn member(
        organization: OrganizationValues,
        access_level: AccessLevelValues,
        user: UserValues,
    ) -> (r: Self)
        ensures
            r@ == (AccountView {
                organization: Some(
                    AccountOrganizationView { values: organization@, owned: false },
                ),
                access_level: access_level@,
                user: user@,
            }),
    {
        Account {
            organization: Some(AccountOrganization { values: organization, owned: false }),
            access_level,
            user,
        }
    }

    /// An account in an organization of its own, which it owns.
    pub fn owner(
        organization: OrganizationValues,
        access_level: AccessLevelValues,
        user: UserValues,
    ) -> (r: Self)
        ensures
            r@ == (AccountView {
                organization: Some(AccountOrganizationView { values: organization@, owned: true }),
                access_level: access_level@,
                user: user@,
            }),
    {
        Account {
            organization: Some(AccountOrganization { values: organization, owned: true }),
            access_level,
            user,
        }
    }
}

/// The values of a randomized organization: its name and billing address are
/// drawn, its flags are not.
pub fn fake_organization() -> (r: OrganizationValues)
    ensures
        is_fake_organization(r@),
{
    let name = fake_company_name();
    let billing_email = fake_safe_email();
    OrganizationValues::new(name, billing_email)
}

/// `o` is a randomized organization: it has a name and a billing address, is
/// not blocked and counts as verified.
pub open spec fn is_fake_organization(o: OrganizationValuesView) -> bool {
    &&& o.name.len() > 0
    &&& o.billing_email.len() > 0
    &&& !o.blocked
    &&& o.billing_email_verified
}

/// The values of every fixed access level: the same in every run.
pub open spec fn fixed_access_level() -> AccessLevelValuesView {
    AccessLevelValuesView {
        name: "admin"@,
        description: "may update the organization"@,
        is_fixed: true,
        permissions: granted_permissions(),
    }
}

/// `l` is a randomized access level, one that is not fixed: its name is a
/// word and its description two to six words.
pub open spec fn is_fake_access_level(l: AccessLevelValuesView) -> bool {
    &&& !l.is_fixed
    &&& l.permissions == granted_permissions()
    &&& is_word(l.name)
    &&& is_phrase(l.description, 2, 7)
}

/// The values of an access level. A fixed one holds the same name and
/// description in every run; of another one both are drawn.
pub fn fake_access_level(is_fixed: bool) -> (r: AccessLevelValues)
    ensures
        is_fixed ==> r@ == fixed_access_level(),
        !is_fixed ==> is_fake_access_level(r@),
{
    if is_fixed {
        AccessLevelValues::new(
            String::from_str("admin"),
            String::from_str("may update the organization"),
            true,
        )
    } else {
        let name = fake_word();
        let description = words(2, 7);
        AccessLevelValues::new(name, description, false)
    }
}

/// `u` is a randomized user: it has a name and an address, what is stored
/// for its password is a hash of a password of ten to forty-nine characters
/// and not that password, and its description is one or two words.
pub open spec fn is_fake_user(u: UserValuesView) -> bool {
    &&& u.username.len() > 0
    &&& u.email.len() > 0
    &&& exists|plain: Seq<char>|
        10 <= plain.len() < 50 && u.password != plain && #[trigger] is_hash_of(
            u.password,
            plain,
            HASH_COST,
        )
    &&& u.description matches Some(d) && is_phrase(d, 1, 3)
}

/// The values of a randomized user. The password is drawn, ten to forty-nine
/// characters long, and hashed; the description is one or two drawn words.
pub fn fake_user() -> (r: Result<UserValues, SeedError>)
    ensures
        r matches Ok(u) ==> is_fake_user(u@),
        r matches Err(e) ==> e == SeedError::HashFailed || e == SeedError::HashIsPlaintext,
{
    let email = fake_safe_email();
    let username = fake_username();
    let email_verified = fake_boolean(50);
    let plain = fake_password(10, 50);
    let ghost drawn = plain@;
    let password = match hash_password(plain) {
        Ok(h) => h,
        Err(e) => {
            return Err(e);
        },
    };
    let description = words(1, 3);
    let user = UserValues::new(username, email, email_verified, password, Some(description));
    assert(10 <= drawn.len() < 50 && user@.password != drawn && is_hash_of(
        user@.password,
        drawn,
        HASH_COST,
    ));
    Ok(user)
}

/// `a` is a randomized organization with its owner and the fixed access
/// level of that organization.
pub open spec fn is_owner_group(a: AccountView) -> bool {
    &&& a.organization matches Some(o) && o.owned && is_fake_organization(o.values)
    &&& a.access_level == fixed_access_level()
    &&& is_fake_user(a.user)
}

/// A randomized organization, the access level of that organization and the
/// user who comes to own it.
pub fn fake_root_user_with_user_org() -> (r: Result<Account, SeedError>)
    ensures
        r matches Ok(a) ==> is_owner_group(a@),
        r matches Err(e) ==> e == SeedError::HashFailed || e == SeedError::HashIsPlaintext,
{
    let organization = fake_organization();
    let access_level = fake_access_level(true);
    match fake_user() {
        Ok(user) => Ok(Account::owner(organization, access_level, user)),
        Err(e) => Err(e),
    }
}

/// `a` is a randomized account of the platform's operators, with a fixed
/// access level.
pub open spec fn is_master_user(a: AccountView) -> bool {
    &&& a.organization is None
    &&& a.access_level == fixed_access_level()
    &&& is_fake_user(a.user)
}

/// A randomized account of the platform's operators: a global access level
/// and a user outside every organization.
pub fn fake_master_user() -> (r: Result<Account, SeedError>)
    ensures
        r matches Ok(a) ==> is_master_user(a@),
        r matches Err(e) ==> e == SeedError::HashFailed || e == SeedError::HashIsPlaintext,
{
    let access_level = fake_access_level(true);
    match fake_user() {
        Ok(user) => Ok(Account::privileged(access_level, user)),
        Err(e) => Err(e),
    }
}

/// The well-known account of the platform's operators, but for its access
/// level and the hash of its password.
pub open spec fn test_master_user_with(
    access_level: AccessLevelValuesView,
    password: Seq<char>,
) -> AccountView {
    AccountView {
        organization: None,
        access_level,
        user: UserValuesView {
            username: "test_master_user"@,
            email: "rastercar.tests.001@gmail.com"@,
            email_verified: true,
            password,
            description: None,
        },
    }
}

/// The well-known account of the platform's operators with the given access
/// level and password hash.
pub fn test_master_user(access_level: AccessLevelValues, password: String) -> (r: Account)
    ensures
        r@ == test_master_user_with(access_level@, password@),
{
    let user = UserValues::new(
        String::from_str("test_master_user"),
        String::from_str("rastercar.tests.001@gmail.com"),
        true,
        password,
        None,
    );
    Account::privileged(access_level, user)
}

/// `a` is the well-known account of the platform's operators: every value
/// of it is the same in every run but what is stored for its password, and
/// that is a hash of `testmasteruser` and not the password.
pub open spec fn is_test_master_user(a: AccountView) -> bool {
    &&& a == test_master_user_with(fixed_access_level(), a.user.password)
    &&& is_hash_of(a.user.password, "testmasteruser"@, HASH_COST)
    &&& a.user.password != "testmasteruser"@
}

/// The well-known account of the platform's operators, with the password
/// `testmasteruser`.
pub fn create_default_test_master_user() -> (r: Result<Account, SeedError>)
    ensures
        r matches Ok(a) ==> is_test_master_user(a@),
        r matches Err(e) ==> e == SeedError::HashFailed || e == SeedError::HashIsPlaintext,
{
    let access_level = fake_access_level(true);
    match hash_password(String::from_str("testmasteruser")) {
        Ok(password) => Ok(test_master_user(access_level, password)),
        Err(e) => Err(e),
    }
}

/// The well-known account of a customer, but for its access level and the
/// hash of its password.
pub open spec fn test_user_with(
    access_level: AccessLevelValuesView,
    password: Seq<char>,
) -> AccountView {
    AccountView {
        organization: Some(
            AccountOrganizationView {
                values: OrganizationValuesView {
                    name: "test user org"@,
                    blocked: false,
                    billing_email: "testuser@gmail.com"@,
                    billing_email_verified: true,
                },
                owned: false,
            },
        ),
        access_level,
        user: UserValuesView {
            username: "test_user"@,
            email: "rastercar.tests.002@gmail.com"@,
            email_verified: true,
            password,
            description: Some("test user"@),
        },
    }
}

/// The well-known account of a customer with the given access level and
/// password hash.
pub fn test_user(access_level: AccessLevelValues, password: String) -> (r: Account)
    ensures
        r@ == test_user_with(access_level@, password@),
{
    let organization = OrganizationValues::new(
        String::from_str("test user org"),
        String::from_str("testuser@gmail.com"),
    );
    let user = UserValues::new(
        String::from_str("test_user"),
        String::from_str("rastercar.tests.002@gmail.com"),
        true,
        password,
        Some(String::from_str("test user")),
    );
    Account::member(organization, access_level, user)
}

/// `a` is the well-known account of a customer: every value of it is the
/// same in every run but what is stored for its password, and that is a
/// hash of `testuser` and not the password.
pub open spec fn is_test_user(a: AccountView) -> bool {
    &&& a == test_user_with(fixed_access_level(), a.user.password)
    &&& is_hash_of(a.user.password, "testuser"@, HASH_COST)
    &&& a.user.password != "testuser"@
}

/// The well-known account of a customer, with the password `testuser`, in an
/// organization of its own that is left without an owner.
pub fn create_default_test_user() -> (r: Result<Account, SeedError>)
    ensures
        r matches Ok(a) ==> is_test_user(a@),
        r matches Err(e) ==> e == SeedError::HashFailed || e == SeedError::HashIsPlaintext,
{
    let access_level = fake_access_level(true);
    match hash_password(String::from_str("testuser")) {
        Ok(password) => Ok(test_user(access_level, password)),
        Err(e) => Err(e),
    }
}

} // verus!
