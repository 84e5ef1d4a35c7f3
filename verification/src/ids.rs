use vstd::prelude::*;

verus! {

/// Relies on uuid::Uuid::new_v4: a freshly generated version-4 identifier,
/// returned as its 128-bit value. The identifier is drawn at random, so
/// nothing is promised about the result. The call stops the process only
/// if the operating system's randomness source fails, an environmental
/// failure on a par with running out of memory.
#[verifier::external_body]
pub(crate) fn fresh_id() -> u128 {
    uuid::Uuid::new_v4().as_u128()
}

} // verus!
