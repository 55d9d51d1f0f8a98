//! A ring VRF protocol core: derivation of VRF input points from signing
//! transcripts, the input/output algebra with batched merging, and the
//! witness side of the ring-membership proving protocol.

mod curve;
mod keys;
mod labels;
mod merkle;
mod prover;
mod rng;
mod transcript;
mod vrf;

pub use labels::{LABEL_VRF_INPUT, LABEL_VRF_NM_PK, LABEL_VRF_NM_AR, LABEL_VRF_IN, LABEL_VRF_OUT,
    LABEL_VRF_RESULT, LABEL_MERGE_VRFS, LABEL_EXTRA_MSG, LABEL_VRF, LABEL_NONE};
pub use curve::{CurvePoint, Scalar, point_from_seed_repr, mul_by_cofactor_repr, scalar_mul_repr,
    point_add_repr, point_decodes, le_nat, nat_to_le, nat_to_le32, scalar_modulus, point_identity_repr};
pub use keys::{SecretKey, PublicKey};
pub use merkle::{AuthRoot, AuthNode, AuthPath};
pub use rng::OutputRng;
pub use prover::{ProverInstance, RingProver, no_extra, challenge_scalar_repr, extra_scalar_repr};
pub use vrf::{VRFInput, VRFOutput, VRFInOut, malleable_input_repr, nonmalleable_input_repr,
    ring_malleable_input_repr, commit_io_repr, result_transcript_repr, make_bytes_repr,
    lemma_make_bytes_deterministic, lemma_nonmalleable_deterministic, lemma_read_write_roundtrip, lemma_write_read_roundtrip,
    scalar128_repr, commit_list_repr, merge_base_repr, merge_scalar_repr, merge_sum_repr, vrfs_merge};
pub use transcript::{SigningTranscript, tr_init, tr_append, tr_challenge};

use vstd::prelude::*;

verus! {

/// Errors surfaced by the VRF protocol layer.
#[derive(Clone, Copy, Debug, PartialEq, Eq)]
pub enum VrfError {
    /// Malformed point bytes handed to a decoder.
    InvalidEncoding,
    /// A usage-contract violation, such as merging an empty list of pairs.
    InvalidArgument,
    /// The proving backend rejected the witness it was given.
    Synthesis,
}

} // verus!

