use vstd::prelude::*;

verus! {

use crate::curve::CurvePoint;
use crate::curve::Scalar;
use crate::curve::le_nat;
use crate::curve::nat_to_le32;
use crate::curve::scalar_modulus;
use crate::curve::mul_by_cofactor_repr;
use crate::curve::scalar_mul_repr;
use crate::keys::SecretKey;
use crate::labels::LABEL_EXTRA_MSG;
use crate::labels::LABEL_VRF;
use crate::merkle::AuthPath;
use crate::transcript::SigningTranscript;
use crate::transcript::tr_init;
use crate::transcript::tr_challenge;
use crate::vrf::VRFInOut;
use crate::vrf::VRFInput;
use crate::vrf::VRFOutput;
use crate::VrfError;

/// Encoding of the scalar a transcript's wide challenge reduces to.
pub open spec fn challenge_scalar_repr(st: Seq<u8>, label: Seq<u8>) -> Seq<u8> {
    nat_to_le32(le_nat(tr_challenge(st, label, 64)) % scalar_modulus())
}

/// Encoding of the extra-message scalar a ring proof binds: the wide
/// challenge of the caller's extra transcript under the extra-msg label.
pub open spec fn extra_scalar_repr(st: Seq<u8>) -> Seq<u8> {
    challenge_scalar_repr(st, LABEL_EXTRA_MSG@)
}

impl SigningTranscript {
    /// Squeezes a 64-byte challenge and reduces it into the scalar field.
    pub fn challenge_scalar<const N: usize>(self, label: &'static [u8; N]) -> (r: Scalar)
        ensures
            r@ == challenge_scalar_repr(self@, label@),
    {
        let wide: [u8; 64] = self.challenge(label);
        Scalar::from_wide_bytes(&wide)
    }
}

/// The empty extra-message transcript: used when a ring proof binds no
/// application message.
pub fn no_extra() -> (r: SigningTranscript)
    ensures
        r@ == tr_init(LABEL_VRF@),
{
    SigningTranscript::new(&LABEL_VRF)
}

/// The fully-populated witness of one ring VRF proof, exactly what the
/// proving backend's circuit instance is assembled from: the secret scalar,
/// the defensively re-cleared VRF input point, the extra-message scalar and
/// the ring authentication path.
pub struct ProverInstance {
    /// The signer's secret scalar.
    pub sk: Scalar,
    /// The VRF input point, cofactor cleared once more.
    pub vrf_input: CurvePoint,
    /// The extra-message scalar.
    pub extra: Scalar,
    /// The ring-membership authentication path.
    pub auth_path: AuthPath,
}

/// A zero-knowledge proving backend for the ring VRF circuit: it turns a
/// fully-populated witness instance into a succinct proof under its own
/// parameters and randomness. Nothing is assumed of an implementation, so
/// whatever a caller proves here holds for any backend; a backend failure
/// surfaces as a synthesis error and is never retried.
pub trait RingProver {
    /// The backend's proof type.
    type Proof;

    /// Produces a proof for the instance, or fails with a synthesis error.
    fn prove(&mut self, instance: &ProverInstance) -> Result<Self::Proof, VrfError>;
}

impl SecretKey {
    /// Assembles the witness instance of one ring VRF proof: clears the
    /// input's cofactor once more (defensively; the input was already in the
    /// prime-order subgroup) and derives the extra-message scalar from the
    /// extra transcript.
    pub fn ring_vrf_instance(&self, vrf_input: VRFInput, extra: SigningTranscript,
        auth_path: AuthPath) -> (r: ProverInstance)
        ensures
            r.sk@ == self@,
            r.vrf_input@ == mul_by_cofactor_repr(vrf_input@),
            r.extra@ == extra_scalar_repr(extra@),
            r.auth_path == auth_path,
    {
        ProverInstance {
            sk: self.key,
            vrf_input: vrf_input.point.mul_by_cofactor(),
            extra: extra.challenge_scalar(&LABEL_EXTRA_MSG),
            auth_path,
        }
    }

    /// Creates a ring VRF signature over the given input with the given
    /// backend: the witness is assembled exactly as `ring_vrf_instance`
    /// states, and whatever the backend returns is handed back unchanged.
    pub fn ring_vrf_prove<P: RingProver>(&self, vrf_input: VRFInput, extra: SigningTranscript,
        auth_path: AuthPath, prover: &mut P) -> Result<P::Proof, VrfError> {
        let instance = self.ring_vrf_instance(vrf_input, extra, auth_path);
        prover.prove(&instance)
    }

    /// Signs one input with no extra message, returning the input/output
    /// pair and the ring proof.
    pub fn ring_vrf_sign_simple<P: RingProver>(&self, input: VRFInput, auth_path: AuthPath,
        prover: &mut P) -> (r: Result<(VRFInOut, P::Proof), VrfError>)
        ensures
            match r {
                Ok(pair) => pair.0.input@ == input@ && pair.0.output@ == scalar_mul_repr(
                    input@,
                    self@,
                ),
                Err(_) => true,
            },
    {
        self.ring_vrf_sign_first(input, no_extra(), auth_path, prover)
    }

    /// Signs one input and an extra-message transcript, returning the
    /// input/output pair and the ring proof. Protocols that evaluate the VRF
    /// repeatedly until they win some contest should prefer
    /// `ring_vrf_sign_after_check`, which never proves speculatively.
    pub fn ring_vrf_sign_first<P: RingProver>(&self, input: VRFInput, extra: SigningTranscript,
        auth_path: AuthPath, prover: &mut P) -> (r: Result<(VRFInOut, P::Proof), VrfError>)
        ensures
            match r {
                Ok(pair) => pair.0.input@ == input@ && pair.0.output@ == scalar_mul_repr(
                    input@,
                    self@,
                ),
                Err(_) => true,
            },
    {
        let inout = input.to_inout(self);
        match self.ring_vrf_prove(input, extra, auth_path, prover) {
            Ok(proof) => Ok((inout, proof)),
            Err(e) => Err(e),
        }
    }

    /// Evaluates the VRF first, cheaply, and only proves if `check` accepts
    /// the pair: `check` returns either no extra message, which aborts with
    /// no proof computed, or the extra-message transcript to sign with. This
    /// ordering is the performance contract lottery-style protocols rely on:
    /// proof generation is never invoked speculatively.
    pub fn ring_vrf_sign_after_check<F: FnOnce(&VRFInOut) -> Option<SigningTranscript>, P:
        RingProver>(&self, input: VRFInput, check: F, auth_path: AuthPath, prover: &mut P) -> (r:
        Result<Option<(VRFOutput, P::Proof)>, VrfError>)
        requires
            forall|io: VRFInOut| call_requires(check, (&io,)),
        ensures
            match r {
                Ok(Some(pair)) => pair.0@ == scalar_mul_repr(input@, self@),
                Ok(None) => true,
                Err(_) => true,
            },
            // A declining check invokes no proof generation: the backend is
            // handed back untouched.
            r matches Ok(None) ==> *final(prover) == *old(prover),
            // Whichever branch ran, the check admitted that outcome on the
            // honest pair: declining for Ok(None), accepting otherwise.
            r matches Ok(None) ==> exists|io: VRFInOut, o: Option<SigningTranscript>|
                io.input@ == input@ && io.output@ == scalar_mul_repr(input@, self@)
                    && call_ensures(check, (&io,), o) && o is None,
            !(r matches Ok(None)) ==> exists|io: VRFInOut, o: Option<SigningTranscript>|
                io.input@ == input@ && io.output@ == scalar_mul_repr(input@, self@)
                    && call_ensures(check, (&io,), o) && o is Some,
            // A check that can only decline on this pair short-circuits the
            // signing: no proof, no backend error.
            (forall|io: VRFInOut, o: Option<SigningTranscript>|
                io.input@ == input@ && io.output@ == scalar_mul_repr(input@, self@)
                    && call_ensures(check, (&io,), o) ==> o is None) ==> r matches Ok(None),
            // And one that can only accept goes on to the backend.
            (forall|io: VRFInOut, o: Option<SigningTranscript>|
                io.input@ == input@ && io.output@ == scalar_mul_repr(input@, self@)
                    && call_ensures(check, (&io,), o) ==> o is Some) ==> !(r matches Ok(None)),
    {
        let inout = input.to_inout(self);
        let extra = match check(&inout) {
            Some(extra) => extra,
            None => {
                return Ok(None);
            },
        };
        match self.ring_vrf_sign_checked(inout, extra, auth_path, prover) {
            Ok(pair) => Ok(Some(pair)),
            Err(e) => Err(e),
        }
    }

    /// Proves for an already-computed pair, returning only the output
    /// component and the proof: the input is implied by context here.
    pub fn ring_vrf_sign_checked<P: RingProver>(&self, inout: VRFInOut, extra: SigningTranscript,
        auth_path: AuthPath, prover: &mut P) -> (r: Result<(VRFOutput, P::Proof), VrfError>)
        ensures
            match r {
                Ok(pair) => pair.0@ == inout.output@,
                Err(_) => true,
            },
    {
        let VRFInOut { input, output } = inout;
        match self.ring_vrf_prove(input, extra, auth_path, prover) {
            Ok(proof) => Ok((output, proof)),
            Err(e) => Err(e),
        }
    }
}

} // verus!
