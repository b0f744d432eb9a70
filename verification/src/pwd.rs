//! Password handling for user records: hashing through argon2, and the
//! fallback that the flows store when no password can be hashed.

use vstd::prelude::*;
use vstd::string::StringExecFns;

verus! {

/// The error that argon2's password hashing reports.
#[verifier::external_type_specification]
#[verifier::external_body]
pub struct ExPasswordHashError(argon2::password_hash::Error);

/// Relies on argon2's `PasswordHasher::hash_password` with the default
/// Argon2id parameters: the PHC-string form of the hash, computed over a
/// random salt — so nothing relates two hashes of the same password.
#[verifier::external_body]
pub fn pwd_hasher(my_password: String) -> (r: Result<String, argon2::password_hash::Error>) {
    let argon2 = argon2::Argon2::default();
    let password_hash: argon2::PasswordHash = argon2::PasswordHasher::hash_password(
        &argon2,
        my_password.as_bytes(),
    )?;
    Ok(password_hash.to_string())
}

/// The fallback password stored for an identifier when no submitted password
/// can be used.
pub fn default_password(uuid: &String) -> (r: String)
    ensures
        r@ == "default_passwd_for_user"@ + uuid@,
{
    let mut out = "default_passwd_for_user".to_owned();
    out.append(uuid.as_str());
    out
}

/// Picks the password that a creation stores: the hash when hashing
/// succeeded, else the fallback derived from the identifier.
pub fn resolve_new_password(
    hash_outcome: Result<String, argon2::password_hash::Error>,
    uuid: &String,
) -> (r: String)
    ensures
        match hash_outcome {
            Ok(h) => r@ == h@,
            Err(_) => r@ == "default_passwd_for_user"@ + uuid@,
        },
{
    match hash_outcome {
        Ok(h) => h,
        Err(_) => default_password(uuid),
    }
}

} // verus!
