//! Fresh identifiers for chunks and stream groups.

use vstd::prelude::*;

verus! {

/// Calls `Uuid::new_v4` of the uuid crate and writes the id out through its
/// `Display`, which gives the hyphenated form. Which id comes back is left to
/// chance; the contract claims only the 36 characters of that form.
#[verifier::external_body]
pub(crate) fn mint_uuid() -> (id: String)
    ensures
        id@.len() == 36,
{
    uuid::Uuid::new_v4().to_string()
}

} // verus!
