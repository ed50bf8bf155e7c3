//! Why a seeding run stops.

use crate::schema::Table;
use vstd::prelude::*;
use vstd::string::*;

verus! {

/// The reason for which a run was given up. A run never goes on after one.
#[derive(Debug, Clone, Copy, PartialEq, Eq, Structural)]
pub enum SeedError {
    /// The hashing of a password reported an error.
    HashFailed,
    /// The hashing of a password gave back the password itself.
    HashIsPlaintext,
    /// The gateway could not create a row in the table.
    InsertFailed(Table),
    /// The gateway could not update a row of the table.
    UpdateFailed(Table),
    /// The event does not answer the operation that was asked for.
    UnexpectedEvent,
}

impl SeedError {
    /// What is said of the failure: the operation that failed, with its
    /// table.
    pub open spec fn spec_message(self) -> Seq<char> {
        match self {
            SeedError::HashFailed => "hashing a password failed"@,
            SeedError::HashIsPlaintext => "hashing a password gave the password back"@,
            SeedError::InsertFailed(table) => "insert failed on table "@ + table.spec_name(),
            SeedError::UpdateFailed(table) => "update failed on table "@ + table.spec_name(),
            SeedError::UnexpectedEvent => "the event answers no pending operation"@,
        }
    }

    /// What is said of the failure: the operation that failed, with its
    /// table.
    pub fn message(self) -> (r: String)
        ensures
            r@ == self.spec_message(),
    {
        match self {
            SeedError::HashFailed => String::from_str("hashing a password failed"),
            SeedError::HashIsPlaintext => String::from_str(
                "hashing a password gave the password back",
            ),
            SeedError::InsertFailed(table) => String::from_str("insert failed on table ").concat(
                table.name(),
            ),
            SeedError::UpdateFailed(table) => String::from_str("update failed on table ").concat(
                table.name(),
            ),
            SeedError::UnexpectedEvent => String::from_str(
                "the event answers no pending operation",
            ),
        }
    }
}

} // verus!
