use vstd::prelude::*;

verus! {

use crate::curve::CurvePoint;
use crate::curve::Scalar;

/// A VRF secret key: a scalar of the curve's prime-order subgroup. In
/// contracts it stands for the scalar's canonical encoding. Secret keys are
/// only ever borrowed into signing calls, never stored in VRF value types.
pub struct SecretKey {
    pub key: Scalar,
}

impl View for SecretKey {
    type V = Seq<u8>;

    open spec fn view(&self) -> Seq<u8> {
        self.key@
    }
}

impl SecretKey {
    /// Wraps an already-derived secret scalar as a signing key.
    pub fn from_scalar(key: Scalar) -> (r: SecretKey)
        ensures
            r@ == key@,
    {
        SecretKey { key }
    }
}

/// A VRF public key: a point of the curve, standing in contracts for its
/// canonical encoding.
pub struct PublicKey {
    pub point: CurvePoint,
}

impl View for PublicKey {
    type V = Seq<u8>;

    open spec fn view(&self) -> Seq<u8> {
        self.point@
    }
}

impl PublicKey {
    /// Wraps a curve point as a public key.
    pub fn from_point(point: CurvePoint) -> (r: PublicKey)
        ensures
            r@ == point@,
    {
        PublicKey { point }
    }
}

} // verus!
