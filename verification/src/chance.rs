//! The one source of chance: which of a few textures a new sprite gets.

use rand::Rng;
use vstd::prelude::*;

verus! {

/// Calls `rand::thread_rng().gen_range(0..len)`: some index below `len`,
/// drawn by the thread's random generator. Which one is not known here, and
/// two calls may differ. An empty range panics there, so `len` is positive.
#[verifier::external_body]
pub(crate) fn random_index(len: usize) -> (index: usize)
    requires
        len > 0,
    ensures
        index < len,
{
    rand::thread_rng().gen_range(0..len)
}

} // verus!
