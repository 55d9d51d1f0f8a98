use vstd::prelude::*;

verus! {

// Domain-separation labels used by the protocol's transcripts, as ASCII bytes.

/// `"vrf-input"`: squeezing the seed of the input-point derivation.
pub const LABEL_VRF_INPUT: [u8; 9] = [118, 114, 102, 45, 105, 110, 112, 117, 116];

/// `"vrf-nm-pk"`: committing the signer's public key (non-malleable mode).
pub const LABEL_VRF_NM_PK: [u8; 9] = [118, 114, 102, 45, 110, 109, 45, 112, 107];

/// `"vrf-nm-ar"`: committing the ring's authentication root (ring mode).
pub const LABEL_VRF_NM_AR: [u8; 9] = [118, 114, 102, 45, 110, 109, 45, 97, 114];

/// `"vrf-in"`: committing the input point of a pair.
pub const LABEL_VRF_IN: [u8; 6] = [118, 114, 102, 45, 105, 110];

/// `"vrf-out"`: committing the output point of a pair.
pub const LABEL_VRF_OUT: [u8; 7] = [118, 114, 102, 45, 111, 117, 116];

/// `"VRFResult"`: the transcript that extracts output bytes from a pair.
pub const LABEL_VRF_RESULT: [u8; 9] = [86, 82, 70, 82, 101, 115, 117, 108, 116];

/// `"MergeVRFs"`: the transcript that binds a batched linear combination.
pub const LABEL_MERGE_VRFS: [u8; 9] = [77, 101, 114, 103, 101, 86, 82, 70, 115];

/// `"extra-msg"`: squeezing the extra-message scalar bound into a ring proof.
pub const LABEL_EXTRA_MSG: [u8; 9] = [101, 120, 116, 114, 97, 45, 109, 115, 103];

/// `"VRF"`: the empty extra-message transcript.
pub const LABEL_VRF: [u8; 3] = [86, 82, 70];

/// `""`: the anonymous label of generic appends and challenges.
pub const LABEL_NONE: [u8; 0] = [];

} // verus!
