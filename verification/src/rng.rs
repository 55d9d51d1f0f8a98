use vstd::prelude::*;

use rand_core::RngCore;
use rand_core::SeedableRng;

verus! {

#[verifier::external_type_specification]
#[verifier::external_body]
pub struct ExChaCha20Rng(rand_chacha::ChaCha20Rng);

/// A ChaCha pseudorandom stream keyed by VRF output bytes. In contracts the
/// stream stands for its 32-byte seed, which drawing from it never changes.
pub struct OutputRng {
    rng: rand_chacha::ChaCha20Rng,
    seed: Ghost<Seq<u8>>,
}

impl View for OutputRng {
    type V = Seq<u8>;

    closed spec fn view(&self) -> Seq<u8> {
        self.seed@
    }
}

/// Relies on `rand_chacha::ChaCha20Rng::from_seed`: a deterministic stream
/// cipher keyed by the given seed bytes.
#[verifier::external_body]
pub(crate) fn chacha_from_seed(seed: &[u8; 32]) -> (r: OutputRng)
    ensures
        r@ == seed@,
{
    OutputRng { rng: rand_chacha::ChaCha20Rng::from_seed(*seed), seed: Ghost(Seq::empty()) }
}

impl OutputRng {
    /// Relies on `rand_core::RngCore::next_u64` for the ChaCha stream: it
    /// advances the stream's position but never its key.
    #[verifier::external_body]
    pub fn next_u64(&mut self) -> (r: u64)
        ensures
            final(self)@ == old(self)@,
    {
        self.rng.next_u64()
    }

    /// Relies on `rand_core::RngCore::fill_bytes` for the ChaCha stream: it
    /// advances the stream's position but never its key.
    #[verifier::external_body]
    pub fn fill_bytes(&mut self, dest: &mut Vec<u8>)
        ensures
            final(self)@ == old(self)@,
            final(dest)@.len() == old(dest)@.len(),
    {
        self.rng.fill_bytes(dest.as_mut_slice());
    }
}

} // verus!
