//! Seeding of a fleet-tracking schema with well-known and randomized accounts.
//!
//! A run is planned first and carried out after. [`run_seed`] plans it: the
//! two well-known accounts, then randomized organizations with their owners,
//! then randomized accounts of the platform's operators. The [`Seeder`] that
//! it returns carries the plan out one gateway operation at a time: the
//! caller performs each [`Action`] on the database and hands back the
//! [`Event`] that answers it. Keys are taken from the identifiers that the
//! database assigned, so no row is asked for before the rows it refers to
//! exist, and the first failure ends the run.
//!
//! - [`values`], [`models`], [`schema`]: what is written, the rows that
//!   result, and the tables they are in.
//! - [`supply`], [`password`]: drawn texts and password hashes.
//! - [`account`], [`plan`]: the accounts of a run and their order.
//! - [`machine`], [`seeder`]: the run as a state machine, over plain values
//!   and in executable form.
//! - [`laws`]: what holds of every run.

pub mod account;
pub mod error;
pub mod laws;
pub mod machine;
pub mod models;
pub mod password;
pub mod plan;
pub mod schema;
pub mod seeder;
pub mod supply;
pub mod values;

pub use account::{
    create_default_test_master_user, create_default_test_user, fake_access_level,
    fake_master_user, fake_organization, fake_root_user_with_user_org, fake_user,
    test_master_user, test_user, Account, AccountOrganization,
};
pub use error::SeedError;
pub use machine::Event;
pub use models::{
    AccessLevel, Organization, Session, SimCard, User, Vehicle, VehicleTracker,
    VehicleTrackerLastLocation, VehicleTrackerLocation,
};
pub use password::{checked_hash, hash_password, HASH_COST};
pub use plan::{create_canonical_accounts, run_seed, seed_db, DEFAULT_GROUPS};
pub use schema::{Geometry, Table};
pub use seeder::{Action, Seeded, Seeder, Stage};
pub use supply::{join_words, words};
pub use values::{AccessLevelValues, OrganizationValues, UserValues};
