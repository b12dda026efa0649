//! Fresh identifiers for new records.
use vstd::prelude::*;

verus! {

/// Number of characters in an identifier.
pub const ID_LEN: usize = 36;

/// Draws a random identifier with `uuid::Uuid::new_v4` and renders it with
/// the crate's `Display`, which writes the hyphenated form: 36 characters.
/// Only that length is claimed; which identifier comes back is up to chance.
#[verifier::external_body]
pub(crate) fn random_id() -> (id: String)
    ensures
        id@.len() == ID_LEN,
{
    uuid::Uuid::new_v4().to_string()
}

} // verus!
