use vstd::prelude::*;

verus! {

/// The root of a ring's Merkle tree of public keys, carried as the 32-byte
/// little-endian encoding of the tree's root hash. Committing it binds a VRF
/// input to "some member of this ring" without naming the member.
pub struct AuthRoot {
    /// Little-endian encoding of the root hash.
    pub bytes: [u8; 32],
}

/// One step of a Merkle authentication path.
pub struct AuthNode {
    /// Encoding of the sibling hash at this depth.
    pub sibling: [u8; 32],
    /// Whether the authenticated child is the right one.
    pub current_is_right: bool,
}

/// A Merkle authentication path proving that the signer's public key is a
/// leaf of the ring committed to by an `AuthRoot`. It is supplied by the
/// caller per proof and handed to the proving backend as witness data; it
/// must match the ring root embedded in the circuit's parameters.
pub struct AuthPath {
    /// The path, leaf end first.
    pub nodes: Vec<AuthNode>,
}

} // verus!
