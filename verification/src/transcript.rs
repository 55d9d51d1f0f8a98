use vstd::prelude::*;

verus! {

/// State of a fresh Fiat-Shamir transcript: merlin's `Transcript::new` is a
/// function of the domain-separation label alone.
pub uninterp spec fn tr_init(label: Seq<u8>) -> Seq<u8>;

/// State after committing a message: merlin's `append_message` advances the
/// state as a function of the prior state, the label and the message alone.
pub uninterp spec fn tr_append(state: Seq<u8>, label: Seq<u8>, message: Seq<u8>) -> Seq<u8>;

/// Bytes a transcript challenge yields: merlin's `challenge_bytes` fills its
/// buffer as a function of the state, the label and the width alone.
pub uninterp spec fn tr_challenge(state: Seq<u8>, label: Seq<u8>, width: nat) -> Seq<u8>;

#[verifier::external_type_specification]
#[verifier::external_body]
pub struct ExMerlinTranscript(merlin::Transcript);

/// A domain-separated Fiat-Shamir transcript. The ghost state stands for the
/// whole history the underlying merlin transcript has absorbed; every
/// operation advances it deterministically, which is what the derivation
/// modes and output extraction below rely on.
pub struct SigningTranscript {
    inner: merlin::Transcript,
    state: Ghost<Seq<u8>>,
}

impl View for SigningTranscript {
    type V = Seq<u8>;

    closed spec fn view(&self) -> Seq<u8> {
        self.state@
    }
}

impl SigningTranscript {
    /// Relies on `merlin::Transcript::new`: the fresh state is determined by
    /// the label alone.
    #[verifier::external_body]
    pub fn new<const N: usize>(label: &'static [u8; N]) -> (r: SigningTranscript)
        ensures
            r@ == tr_init(label@),
    {
        SigningTranscript { inner: merlin::Transcript::new(label), state: Ghost(Seq::empty()) }
    }

    /// Relies on `merlin::Transcript::append_message`: a deterministic state
    /// update from the prior state, the label and the message. merlin
    /// asserts that a message fits in 32 bits of length, so longer ones are
    /// excluded here.
    #[verifier::external_body]
    pub fn commit_bytes<const N: usize>(&mut self, label: &'static [u8; N], message: &[u8])
        requires
            message@.len() <= 0xFFFF_FFFF,
        ensures
            final(self)@ == tr_append(old(self)@, label@, message@),
    {
        self.inner.append_message(label, message);
    }

    /// Relies on `merlin::Transcript::challenge_bytes`: the bytes drawn are a
    /// function of the state, the label and the width alone.
    #[verifier::external_body]
    pub fn challenge<const N: usize, const W: usize>(self, label: &'static [u8; N]) -> (r: [u8; W])
        ensures
            r@ == tr_challenge(self@, label@, W as nat),
    {
        let mut inner = self.inner;
        let mut buf = [0u8; W];
        inner.challenge_bytes(label, &mut buf);
        buf
    }

    /// Relies on `merlin::Transcript`'s `Clone`: an identical, independent state.
    #[verifier::external_body]
    pub fn duplicate(&self) -> (r: SigningTranscript)
        ensures
            r@ == self@,
    {
        SigningTranscript { inner: self.inner.clone(), state: Ghost(Seq::empty()) }
    }
}

} // verus!
