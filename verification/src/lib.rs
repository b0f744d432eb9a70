//! A small CRM persistence core: a keyed record store with soft deletion,
//! merge updates and per-entity validation, with its behaviour verified.

use vstd::prelude::*;

pub mod clinical;
pub mod conf;
pub mod crud;
pub mod enterprise;
pub mod errors;
pub mod general;
pub mod laws;
pub mod messages;
pub mod pwd;
pub mod sales;
pub mod school;
pub mod time;
pub mod users;
pub mod validation;

verus! {

/// True for the characters that a generated identifier may contain:
/// lower-case hexadecimal digits.
pub open spec fn is_lower_hex_char(c: char) -> bool {
    ('0' <= c && c <= '9') || ('a' <= c && c <= 'f')
}

} // verus!
