//! The random byte source for the `CXKK` instruction.

use rand::Rng;
use vstd::prelude::*;

verus! {

/// Relies on `rand::thread_rng` and `rand::Rng::gen` for `u8`: returns one
/// byte. Nothing is promised of its value — it is random — so every caller
/// must hold for every byte that could come back.
#[verifier::external_body]
pub(crate) fn random_byte() -> u8 {
    rand::thread_rng().gen()
}

} // verus!
