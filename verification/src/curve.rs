use vstd::prelude::*;

use ff::PrimeField;
use group::Group;
use rand_core::SeedableRng;

verus! {

// In specifications, a curve point or scalar is identified by its canonical
// 32-byte encoding. The curve operations below are deterministic functions
// of those encodings; their results are named here and never interpreted.

/// Encoding of the point the curve library samples from a pseudorandom
/// stream seeded with the given 32 bytes.
pub uninterp spec fn point_from_seed_repr(seed: Seq<u8>) -> Seq<u8>;

/// Encoding of a point multiplied by the curve's cofactor.
pub uninterp spec fn mul_by_cofactor_repr(p: Seq<u8>) -> Seq<u8>;

/// Encoding of a point multiplied by a scalar.
pub uninterp spec fn scalar_mul_repr(p: Seq<u8>, s: Seq<u8>) -> Seq<u8>;

/// Encoding of the sum of two points.
pub uninterp spec fn point_add_repr(a: Seq<u8>, b: Seq<u8>) -> Seq<u8>;

/// Whether 32 bytes are the canonical encoding of a curve point.
pub uninterp spec fn point_decodes(b: Seq<u8>) -> bool;

/// The little-endian value of a byte string.
pub open spec fn le_nat(s: Seq<u8>) -> nat
    decreases s.len(),
{
    if s.len() == 0 {
        0
    } else {
        s[0] as nat + 256 * le_nat(s.drop_first())
    }
}

/// The `len`-byte little-endian encoding of `n`.
pub open spec fn nat_to_le(n: nat, len: nat) -> Seq<u8>
    decreases len,
{
    if len == 0 {
        Seq::empty()
    } else {
        seq![(n % 256) as u8] + nat_to_le(n / 256, (len - 1) as nat)
    }
}

/// The 32-byte little-endian encoding of `n`, the canonical scalar encoding.
pub open spec fn nat_to_le32(n: nat) -> Seq<u8> {
    nat_to_le(n, 32)
}

/// The order of the prime-order subgroup: the modulus of the scalar field.
pub open spec fn scalar_modulus() -> nat {
    0x0e7db4ea6533afa906673b0101343b00a6682093ccc81082d0970e5ed6f72cb7nat
}

/// Encoding of the group identity: the point (0, 1).
pub open spec fn point_identity_repr() -> Seq<u8> {
    Seq::new(32, |i: int| if i == 0 { 1u8 } else { 0u8 })
}

#[verifier::external_type_specification]
#[verifier::external_body]
pub struct ExExtendedPoint(jubjub::ExtendedPoint);

#[verifier::external_type_specification]
#[verifier::external_body]
pub struct ExFr(jubjub::Fr);

/// A point of the VRF's curve. In every contract the point stands for its
/// canonical 32-byte encoding, carried as ghost state.
#[derive(Clone, Copy)]
pub struct CurvePoint {
    p: jubjub::ExtendedPoint,
    repr: Ghost<Seq<u8>>,
}

impl View for CurvePoint {
    type V = Seq<u8>;

    closed spec fn view(&self) -> Seq<u8> {
        self.repr@
    }
}

/// A scalar of the curve's prime-order subgroup, standing in contracts for
/// its canonical 32-byte little-endian encoding.
#[derive(Clone, Copy)]
pub struct Scalar {
    s: jubjub::Fr,
    repr: Ghost<Seq<u8>>,
}

impl View for Scalar {
    type V = Seq<u8>;

    closed spec fn view(&self) -> Seq<u8> {
        self.repr@
    }
}

impl CurvePoint {
    /// Relies on `group::Group::random` over a ChaCha stream cipher seeded by
    /// `rand_chacha::ChaCha20Rng::from_seed`: both are deterministic, so the
    /// sampled point is a function of the seed alone.
    #[verifier::external_body]
    pub fn from_seed(seed: &[u8; 32]) -> (r: CurvePoint)
        ensures
            r@ == point_from_seed_repr(seed@),
    {
        let mut rng = rand_chacha::ChaCha20Rng::from_seed(*seed);
        CurvePoint { p: jubjub::ExtendedPoint::random(&mut rng), repr: Ghost(Seq::empty()) }
    }

    /// Relies on `jubjub::ExtendedPoint::mul_by_cofactor`.
    #[verifier::external_body]
    pub fn mul_by_cofactor(&self) -> (r: CurvePoint)
        ensures
            r@ == mul_by_cofactor_repr(self@),
    {
        CurvePoint { p: self.p.mul_by_cofactor(), repr: Ghost(Seq::empty()) }
    }

    /// Relies on the scalar multiplication of `jubjub::ExtendedPoint`.
    #[verifier::external_body]
    pub fn scalar_mul(&self, s: &Scalar) -> (r: CurvePoint)
        ensures
            r@ == scalar_mul_repr(self@, s@),
    {
        CurvePoint { p: &self.p * &s.s, repr: Ghost(Seq::empty()) }
    }

    /// Relies on the point addition of `jubjub::ExtendedPoint`.
    #[verifier::external_body]
    pub fn add_point(&self, other: &CurvePoint) -> (r: CurvePoint)
        ensures
            r@ == point_add_repr(self@, other@),
    {
        CurvePoint { p: &self.p + &other.p, repr: Ghost(Seq::empty()) }
    }

    /// Relies on `group::Group::identity`: the identity is the point (0, 1),
    /// whose canonical encoding is the byte 1 followed by 31 zero bytes.
    #[verifier::external_body]
    pub fn identity() -> (r: CurvePoint)
        ensures
            r@ == point_identity_repr(),
    {
        CurvePoint { p: jubjub::ExtendedPoint::identity(), repr: Ghost(Seq::empty()) }
    }

    /// Relies on `jubjub::AffinePoint::to_bytes`: the canonical encoding this
    /// point stands for in every contract; `from_bytes` accepts every such
    /// encoding, so the result always decodes.
    #[verifier::external_body]
    pub fn encode(&self) -> (r: [u8; 32])
        ensures
            r@ == self@,
            point_decodes(r@),
    {
        jubjub::AffinePoint::from(self.p).to_bytes()
    }

    /// Relies on `jubjub::AffinePoint::from_bytes`: it accepts exactly the
    /// canonical encodings of curve points, so a decoded point re-encodes to
    /// the very bytes given.
    #[verifier::external_body]
    pub fn decode(bytes: &[u8; 32]) -> (r: Option<CurvePoint>)
        ensures
            match r {
                Some(p) => point_decodes(bytes@) && p@ == bytes@,
                None => !point_decodes(bytes@),
            },
    {
        let o: Option<jubjub::AffinePoint> = Option::from(jubjub::AffinePoint::from_bytes(*bytes));
        match o {
            Some(a) => Some(CurvePoint { p: jubjub::ExtendedPoint::from(a), repr: Ghost(Seq::empty()) }),
            None => None,
        }
    }
}

impl Scalar {
    /// Relies on `ff::PrimeField::from_u128` for the curve's scalar field:
    /// any 128-bit value is below the field's modulus, so the canonical
    /// encoding of the result is the value's little-endian bytes.
    #[verifier::external_body]
    pub fn from_u128(x: u128) -> (r: Scalar)
        ensures
            r@ == nat_to_le32(x as nat),
    {
        Scalar { s: jubjub::Fr::from_u128(x), repr: Ghost(Seq::empty()) }
    }

    /// Relies on `jubjub::Fr::from_bytes_wide`: it reduces a 512-bit
    /// little-endian integer modulo the scalar field's order.
    #[verifier::external_body]
    pub fn from_wide_bytes(b: &[u8; 64]) -> (r: Scalar)
        ensures
            r@ == nat_to_le32(le_nat(b@) % scalar_modulus()),
    {
        Scalar { s: jubjub::Fr::from_bytes_wide(b), repr: Ghost(Seq::empty()) }
    }

    /// Relies on `jubjub::Fr::to_bytes`: the canonical little-endian encoding
    /// this scalar stands for in every contract.
    #[verifier::external_body]
    pub fn encode(&self) -> (r: [u8; 32])
        ensures
            r@ == self@,
    {
        self.s.to_bytes()
    }
}

} // verus!
