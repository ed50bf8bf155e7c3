//! Passwords are stored as bcrypt hashes, never as they were typed.

use crate::error::SeedError;
use vstd::prelude::*;

verus! {

/// The cost at which seeded passwords are hashed: the lowest that bcrypt
/// takes, since seeded accounts protect nothing.
pub const HASH_COST: u32 = 4;

/// The error of the `bcrypt` crate, carried as it is.
#[verifier::external_type_specification]
#[verifier::external_body]
pub struct ExBcryptError(bcrypt::BcryptError);

/// The character of a decimal digit.
pub open spec fn digit(d: int) -> char {
    if d == 0 {
        '0'
    } else if d == 1 {
        '1'
    } else if d == 2 {
        '2'
    } else if d == 3 {
        '3'
    } else if d == 4 {
        '4'
    } else if d == 5 {
        '5'
    } else if d == 6 {
        '6'
    } else if d == 7 {
        '7'
    } else if d == 8 {
        '8'
    } else {
        '9'
    }
}

/// `h` has the shape of a bcrypt hash of the given cost: the version `2b`,
/// the cost in two digits, then 53 characters of salt and digest.
pub open spec fn is_hash(h: Seq<char>, cost: u32) -> bool {
    &&& h.len() == 60
    &&& h[0] == '$'
    &&& h[1] == '2'
    &&& h[2] == 'b'
    &&& h[3] == '$'
    &&& h[4] == digit(cost as int / 10)
    &&& h[5] == digit(cost as int % 10)
    &&& h[6] == '$'
}

/// What `bcrypt::hash_with_salt` gives for the password, the cost and the
/// salt, written in the version `2b`: the hash of the password under that
/// salt.
pub uninterp spec fn bcrypt_salted(password: Seq<char>, cost: u32, salt: Seq<u8>) -> Seq<char>;

/// `h` is a bcrypt hash of `password` at the given cost, under some salt of
/// sixteen bytes.
pub open spec fn is_hash_of(h: Seq<char>, password: Seq<char>, cost: u32) -> bool {
    &&& is_hash(h, cost)
    &&& exists|salt: Seq<u8>|
        salt.len() == 16 && h == #[trigger] bcrypt_salted(password, cost, salt)
}

/// `bcrypt::hash`: draws a salt of sixteen bytes from the system and hashes
/// the password under it, as `bcrypt::hash_with_salt` does under a given
/// one; two calls on one password differ by their salt. The crate refuses a
/// cost outside 4 to 31 and fails where no salt can be drawn; what it
/// returns otherwise has the shape of a hash of that cost.
#[verifier::external_body]
fn bcrypt_hash(password: &str, cost: u32) -> (r: Result<String, bcrypt::BcryptError>)
    ensures
        r matches Ok(h) ==> 4 <= cost <= 31 && is_hash(h@, cost),
        r matches Ok(h) ==> exists|salt: Seq<u8>|
            salt.len() == 16 && h@ == #[trigger] bcrypt_salted(password@, cost, salt),
{
    bcrypt::hash(password, cost)
}

/// What is stored for `plain`, given what the hashing returned: the hash,
/// unless the hashing failed or handed the password back.
pub fn checked_hash(plain: &String, outcome: Result<String, bcrypt::BcryptError>) -> (r: Result<
    String,
    SeedError,
>)
    ensures
        outcome is Err ==> r == Err::<String, SeedError>(SeedError::HashFailed),
        outcome matches Ok(h) ==> (if h@ == plain@ {
            r == Err::<String, SeedError>(SeedError::HashIsPlaintext)
        } else {
            r == Ok::<String, SeedError>(h)
        }),
{
    match outcome {
        Ok(h) => {
            if h == *plain {
                Err(SeedError::HashIsPlaintext)
            } else {
                Ok(h)
            }
        },
        Err(_) => Err(SeedError::HashFailed),
    }
}

/// Hashes a password for storage. Whatever salt was drawn, what comes back is
/// a hash of that password at `HASH_COST`, and not the password.
pub fn hash_password(plain: String) -> (r: Result<String, SeedError>)
    ensures
        r matches Ok(h) ==> h@ != plain@ && is_hash_of(h@, plain@, HASH_COST),
        r matches Err(e) ==> e == SeedError::HashFailed || e == SeedError::HashIsPlaintext,
{
    let outcome = bcrypt_hash(plain.as_str(), HASH_COST);
    checked_hash(&plain, outcome)
}

} // verus!
