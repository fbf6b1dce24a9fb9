//! Randomness for key and IV fixtures.  The cipher itself never draws
//! random bytes; callers supply key material, and this helper exists to
//! fill such material from the system generator.

use vstd::prelude::*;

verus! {

/// Fill the buffer with bytes from the thread-local random generator.
///
/// Relies on rand::Rng::fill over rand::thread_rng(): it overwrites the
/// buffer in full and leaves its length unchanged.  Nothing more can be
/// promised of a random result.
#[verifier::external_body]
pub fn random_bytes(bytes: &mut Vec<u8>)
    ensures
        final(bytes)@.len() == old(bytes)@.len(),
{
    let mut rng = rand::thread_rng();
    rand::Rng::fill(&mut rng, bytes.as_mut_slice());
}

} // verus!
