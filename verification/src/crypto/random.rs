//! The application CSPRNG: ChaCha20 seeded from the operating system.

use vstd::prelude::*;
use rand::{RngCore, SeedableRng};

verus! {

/// Fill `out` with cryptographically secure random bytes
/// (`rand_chacha::ChaCha20Rng::from_entropy` then `fill_bytes`). Only the
/// length is kept; the contents are random. Seeding panics if the operating
/// system cannot supply entropy.
#[verifier::external_body]
pub fn fill(out: &mut [u8])
    ensures
        final(out)@.len() == old(out)@.len(),
{
    rand_chacha::ChaCha20Rng::from_entropy().fill_bytes(out);
}

/// `n` random bytes.
pub fn bytes(n: usize) -> (v: Vec<u8>)
    ensures
        v@.len() == n,
{
    let mut v: Vec<u8> = Vec::new();
    let mut i: usize = 0;
    while i < n
        invariant
            i <= n,
            v@.len() == i,
        decreases n - i,
    {
        v.push(0);
        i = i + 1;
    }
    fill(v.as_mut_slice());
    v
}

/// A random 16-byte salt.
pub fn salt16() -> (s: [u8; 16])
    ensures
        s@.len() == 16,
{
    let mut s = [0u8; 16];
    fill(&mut s);
    s
}

} // verus!
