use vstd::prelude::*;

verus! {

use crate::curve::CurvePoint;
use crate::curve::Scalar;
use crate::curve::le_nat;
use crate::curve::nat_to_le32;
use crate::curve::point_from_seed_repr;
use crate::curve::mul_by_cofactor_repr;
use crate::curve::scalar_mul_repr;
use crate::curve::point_add_repr;
use crate::curve::point_identity_repr;
use crate::curve::point_decodes;
use crate::keys::PublicKey;
use crate::keys::SecretKey;
use crate::labels::LABEL_VRF_INPUT;
use crate::labels::LABEL_VRF_NM_PK;
use crate::labels::LABEL_VRF_NM_AR;
use crate::labels::LABEL_VRF_IN;
use crate::labels::LABEL_VRF_OUT;
use crate::labels::LABEL_VRF_RESULT;
use crate::labels::LABEL_NONE;
use crate::labels::LABEL_MERGE_VRFS;
use crate::transcript::SigningTranscript;
use crate::transcript::tr_init;
use crate::transcript::tr_append;
use crate::transcript::tr_challenge;
use crate::VrfError;

// --- derivation of VRF inputs from transcripts ---

/// Encoding of the input point the malleable derivation draws from a
/// transcript state: 32 challenge bytes seed a pseudorandom point, whose
/// cofactor is then cleared so it lies in the prime-order subgroup.
pub open spec fn malleable_input_repr(st: Seq<u8>) -> Seq<u8> {
    mul_by_cofactor_repr(point_from_seed_repr(tr_challenge(st, LABEL_VRF_INPUT@, 32)))
}

/// Encoding of the non-malleable input: the public key is committed before
/// the malleable derivation runs, binding the input to that one key.
pub open spec fn nonmalleable_input_repr(st: Seq<u8>, pk: Seq<u8>) -> Seq<u8> {
    malleable_input_repr(tr_append(st, LABEL_VRF_NM_PK@, pk))
}

/// Encoding of the ring-malleable input: the ring's authentication root is
/// committed before the malleable derivation runs, binding the input to the
/// ring as a whole but to no single member.
pub open spec fn ring_malleable_input_repr(st: Seq<u8>, root: Seq<u8>) -> Seq<u8> {
    malleable_input_repr(tr_append(st, LABEL_VRF_NM_AR@, root))
}

impl SigningTranscript {
    /// Commits a curve point under the given label: the point's canonical
    /// encoding is committed as bytes.
    pub fn commit_point<const N: usize>(&mut self, label: &'static [u8; N], p: &CurvePoint)
        ensures
            final(self)@ == tr_append(old(self)@, label@, p@),
    {
        let bytes = p.encode();
        self.commit_bytes(label, bytes.as_slice());
    }
}

/// VRF input, always derived locally from a signing transcript so that it is
/// never directly attacker-controlled, and cofactor-cleared at construction.
///
/// Every constructor names its malleability: a malleable input can be
/// recomputed by anyone who can replay the transcript, which is required for
/// ring anonymity but insecure beside hierarchical key derivation, where a
/// malleable output could be shifted between soft-derived sibling keys.
/// Prefer the non-malleable mode wherever ring anonymity is not needed.
pub struct VRFInput {
    /// The input point.
    pub point: CurvePoint,
}

impl View for VRFInput {
    type V = Seq<u8>;

    open spec fn view(&self) -> Seq<u8> {
        self.point@
    }
}

/// VRF output point, possibly not yet verified against any proof.
pub struct VRFOutput {
    /// The output point.
    pub point: CurvePoint,
}

impl View for VRFOutput {
    type V = Seq<u8>;

    open spec fn view(&self) -> Seq<u8> {
        self.point@
    }
}

/// A claimed VRF input/output pair. It is only trustworthy once a proof has
/// been checked, or once locally produced by the holder of the secret key.
pub struct VRFInOut {
    /// The VRF input point.
    pub input: VRFInput,
    /// The VRF output point.
    pub output: VRFOutput,
}

impl VRFInput {
    /// Derives a VRF input from a transcript, acknowledging malleability:
    /// anyone who can replay the transcript can recompute this input.
    pub fn new_malleable(t: SigningTranscript) -> (r: VRFInput)
        ensures
            r@ == malleable_input_repr(t@),
    {
        let seed: [u8; 32] = t.challenge(&LABEL_VRF_INPUT);
        let sampled = CurvePoint::from_seed(&seed);
        VRFInput { point: sampled.mul_by_cofactor() }
    }

    /// Derives a non-malleable VRF input bound to one public key. Not usable
    /// for ring proofs: the input would reveal which member signs.
    pub fn new_nonmalleable(t: SigningTranscript, publickey: &PublicKey) -> (r: VRFInput)
        ensures
            r@ == nonmalleable_input_repr(t@, publickey@),
    {
        let mut t = t;
        t.commit_point(&LABEL_VRF_NM_PK, &publickey.point);
        VRFInput::new_malleable(t)
    }

    /// Derives a semi-malleable VRF input bound to a ring's authentication
    /// root rather than to any single member: the mode compatible with ring
    /// anonymity while still preventing cross-context replay.
    pub fn new_ring_malleable(t: SigningTranscript, auth_root: &crate::merkle::AuthRoot) -> (r:
        VRFInput)
        ensures
            r@ == ring_malleable_input_repr(t@, auth_root.bytes@),
    {
        let mut t = t;
        t.commit_bytes(&LABEL_VRF_NM_AR, auth_root.bytes.as_slice());
        VRFInput::new_malleable(t)
    }

    /// The VRF output under a secret key: the input point multiplied by the
    /// secret scalar.
    pub fn to_output(&self, sk: &SecretKey) -> (r: VRFOutput)
        ensures
            r@ == scalar_mul_repr(self@, sk@),
    {
        VRFOutput { point: self.point.scalar_mul(&sk.key) }
    }

    /// Pairs this input with its output under a secret key.
    pub fn to_inout(&self, sk: &SecretKey) -> (r: VRFInOut)
        ensures
            r.input@ == self@,
            r.output@ == scalar_mul_repr(self@, sk@),
    {
        let output = self.to_output(sk);
        VRFInOut { input: VRFInput { point: self.point }, output }
    }
}

impl VRFOutput {
    /// Decodes a VRF output from its canonical 32-byte encoding, rejecting
    /// exactly the byte strings the curve library's decoder rejects.
    pub fn read(bytes: &[u8; 32]) -> (r: Result<VRFOutput, VrfError>)
        ensures
            match r {
                Ok(o) => point_decodes(bytes@) && o@ == bytes@,
                Err(e) => !point_decodes(bytes@) && e == VrfError::InvalidEncoding,
            },
    {
        match CurvePoint::decode(bytes) {
            Some(p) => Ok(VRFOutput { point: p }),
            None => Err(VrfError::InvalidEncoding),
        }
    }

    /// The canonical 32-byte encoding of this output; always a valid
    /// encoding, so `read` accepts it back.
    pub fn write(&self) -> (r: [u8; 32])
        ensures
            r@ == self@,
            point_decodes(r@),
    {
        self.point.encode()
    }

    /// Attaches this output to the input a malleable transcript derives.
    pub fn attach_malleable(&self, t: SigningTranscript) -> (r: VRFInOut)
        ensures
            r.input@ == malleable_input_repr(t@),
            r.output@ == self@,
    {
        let input = VRFInput::new_malleable(t);
        VRFInOut { input, output: VRFOutput { point: self.point } }
    }

    /// Attaches this output to the input a non-malleable transcript derives
    /// for the given public key.
    pub fn attach_nonmalleable(&self, t: SigningTranscript, publickey: &PublicKey) -> (r: VRFInOut)
        ensures
            r.input@ == nonmalleable_input_repr(t@, publickey@),
            r.output@ == self@,
    {
        let input = VRFInput::new_nonmalleable(t, publickey);
        VRFInOut { input, output: VRFOutput { point: self.point } }
    }

    /// Attaches this output to the input a ring-malleable transcript derives
    /// for the given authentication root.
    pub fn attach_ring_malleable(&self, t: SigningTranscript, auth_root: &crate::merkle::AuthRoot)
        -> (r: VRFInOut)
        ensures
            r.input@ == ring_malleable_input_repr(t@, auth_root.bytes@),
            r.output@ == self@,
    {
        let input = VRFInput::new_ring_malleable(t, auth_root);
        VRFInOut { input, output: VRFOutput { point: self.point } }
    }
}

// --- output extraction ---

/// Transcript state after both points of a pair are committed, the 2Hash-DH
/// binding every consumer of a VRF result must apply.
pub open spec fn commit_io_repr(st: Seq<u8>, input: Seq<u8>, output: Seq<u8>) -> Seq<u8> {
    tr_append(tr_append(st, LABEL_VRF_IN@, input), LABEL_VRF_OUT@, output)
}

/// Transcript state from which a pair's output bytes are squeezed: a fresh
/// result transcript, the caller's context, then the committed pair.
pub open spec fn result_transcript_repr(input: Seq<u8>, output: Seq<u8>, context: Seq<u8>) -> Seq<
    u8,
> {
    commit_io_repr(tr_append(tr_init(LABEL_VRF_RESULT@), LABEL_NONE@, context), input, output)
}

/// The bytes a pair yields for a context: a pure function of the pair's two
/// encodings, the context and the width.
pub open spec fn make_bytes_repr(input: Seq<u8>, output: Seq<u8>, context: Seq<u8>, width: nat)
    -> Seq<u8> {
    tr_challenge(result_transcript_repr(input, output, context), LABEL_NONE@, width)
}

impl VRFInOut {
    /// The canonical encoding of the output component; always a valid
    /// encoding, so `read` accepts it back.
    pub fn write_output(&self) -> (r: [u8; 32])
        ensures
            r@ == self.output@,
            point_decodes(r@),
    {
        self.output.write()
    }

    /// Commits the input and output points to a transcript, the 2Hash-DH
    /// construction that binds a VRF result into any larger proof context.
    /// Every consumer of a VRF result must bind it this way to prevent
    /// rogue-key and duplicate-output attacks.
    pub fn commit(&self, t: &mut SigningTranscript)
        ensures
            final(t)@ == commit_io_repr(old(t)@, self.input@, self.output@),
    {
        t.commit_point(&LABEL_VRF_IN, &self.input.point);
        t.commit_point(&LABEL_VRF_OUT, &self.output.point);
    }

    /// The transcript a pair's output bytes are squeezed from; also the seed
    /// state for transcript-based witness randomness.
    pub fn result_transcript(&self, context: &[u8]) -> (r: SigningTranscript)
        requires
            context@.len() <= 0xFFFF_FFFF,
        ensures
            r@ == result_transcript_repr(self.input@, self.output@, context@),
    {
        let mut t = SigningTranscript::new(&LABEL_VRF_RESULT);
        t.commit_bytes(&LABEL_NONE, context);
        self.commit(&mut t);
        t
    }

    /// Raw bytes output of the VRF: a pure function of the pair and the
    /// context, so distinct contexts yield independent-looking outputs.
    /// Callers who did not produce the pair themselves must verify it against
    /// a proof before trusting these bytes.
    pub fn make_bytes<const W: usize>(&self, context: &[u8]) -> (r: [u8; W])
        requires
            context@.len() <= 0xFFFF_FFFF,
        ensures
            r@ == make_bytes_repr(self.input@, self.output@, context@, W as nat),
    {
        let t = self.result_transcript(context);
        t.challenge(&LABEL_NONE)
    }

    /// The VRF output for a context as a ChaCha pseudorandom stream: the
    /// stream is keyed with 32 output bytes of the pair, so it is a pure
    /// function of the pair and the context. Callers who did not produce
    /// the pair themselves must verify it against a proof first.
    pub fn make_chacharng(&self, context: &[u8]) -> (r: crate::rng::OutputRng)
        requires
            context@.len() <= 0xFFFF_FFFF,
        ensures
            r@ == make_bytes_repr(self.input@, self.output@, context@, 32),
    {
        let seed: [u8; 32] = self.make_bytes(context);
        crate::rng::chacha_from_seed(&seed)
    }
}

// --- batched linear combination of pairs from one signer ---

/// Little-endian value of an 8-byte string, written out byte by byte.
proof fn lemma_le_nat8(s: Seq<u8>)
    requires
        s.len() == 8,
    ensures
        le_nat(s) == s[0] + 256 * (s[1] + 256 * (s[2] + 256 * (s[3] + 256 * (s[4] + 256 * (s[5]
            + 256 * (s[6] + 256 * (s[7] as nat))))))),
{
    let s1 = s.drop_first();
    let s2 = s1.drop_first();
    let s3 = s2.drop_first();
    let s4 = s3.drop_first();
    let s5 = s4.drop_first();
    let s6 = s5.drop_first();
    let s7 = s6.drop_first();
    assert(le_nat(s) == s[0] + 256 * le_nat(s1));
    assert(le_nat(s1) == s[1] + 256 * le_nat(s2));
    assert(le_nat(s2) == s[2] + 256 * le_nat(s3));
    assert(le_nat(s3) == s[3] + 256 * le_nat(s4));
    assert(le_nat(s4) == s[4] + 256 * le_nat(s5));
    assert(le_nat(s5) == s[5] + 256 * le_nat(s6));
    assert(le_nat(s6) == s[6] + 256 * le_nat(s7));
    assert(le_nat(s7) == s[7] + 256 * le_nat(s7.drop_first()));
    assert(le_nat(s7.drop_first()) == 0);
}

/// Reads the little-endian 64-bit value of 8 bytes of a challenge.
fn le_u64_from(bytes: &[u8; 16], off: usize) -> (r: u64)
    requires
        off + 8 <= 16,
    ensures
        r as nat == le_nat(bytes@.subrange(off as int, off as int + 8)),
{
    let mut acc: u64 = bytes[off + 7] as u64;
    acc = acc * 256 + bytes[off + 6] as u64;
    acc = acc * 256 + bytes[off + 5] as u64;
    acc = acc * 256 + bytes[off + 4] as u64;
    acc = acc * 256 + bytes[off + 3] as u64;
    acc = acc * 256 + bytes[off + 2] as u64;
    acc = acc * 256 + bytes[off + 1] as u64;
    acc = acc * 256 + bytes[off] as u64;
    proof {
        lemma_le_nat8(bytes@.subrange(off as int, off as int + 8));
    }
    acc
}

/// Encoding of the 128-bit challenge scalar drawn from a transcript state:
/// 16 challenge bytes, read as high and low 64-bit halves.
pub open spec fn scalar128_repr(st: Seq<u8>) -> Seq<u8> {
    let ch = tr_challenge(st, LABEL_NONE@, 16);
    nat_to_le32(
        le_nat(ch.subrange(0, 8)) * 0x10000000000000000nat + le_nat(ch.subrange(8, 16)),
    )
}

/// Samples a 128-bit scalar from a transcript, the verifier-chosen random
/// weight of one pair in a batched linear combination.
fn challenge_scalar_128(t: SigningTranscript) -> (r: Scalar)
    ensures
        r@ == scalar128_repr(t@),
{
    let ch: [u8; 16] = t.challenge(&LABEL_NONE);
    let hi = le_u64_from(&ch, 0);
    let lo = le_u64_from(&ch, 8);
    let value: u128 = (hi as u128) * 0x10000000000000000u128 + (lo as u128);
    Scalar::from_u128(value)
}

/// Transcript state after every pair of a list is committed in order: the
/// binding context all merge challenges are drawn from.
pub open spec fn commit_list_repr(st: Seq<u8>, ps: Seq<VRFInOut>) -> Seq<u8>
    decreases ps.len(),
{
    if ps.len() == 0 {
        st
    } else {
        commit_io_repr(commit_list_repr(st, ps.drop_last()), ps.last().input@, ps.last().output@)
    }
}

/// The shared transcript state a merge of the given pairs snapshots before
/// drawing any challenge.
pub open spec fn merge_base_repr(ps: Seq<VRFInOut>) -> Seq<u8> {
    commit_list_repr(tr_init(LABEL_MERGE_VRFS@), ps)
}

/// The challenge scalar of one pair: its own commitment is re-applied to a
/// clone of the shared state, domain-separating each pair's challenge.
pub open spec fn merge_scalar_repr(base: Seq<u8>, p: VRFInOut) -> Seq<u8> {
    scalar128_repr(commit_io_repr(base, p.input@, p.output@))
}

/// Encoding of one side of the merged pair: the sum, in list order, of each
/// pair's point weighted by that pair's challenge scalar. The same scalars
/// weight the input side and the output side.
pub open spec fn merge_sum_repr(base: Seq<u8>, ps: Seq<VRFInOut>, outputs: bool) -> Seq<u8>
    decreases ps.len(),
{
    if ps.len() == 0 {
        point_identity_repr()
    } else {
        point_add_repr(
            merge_sum_repr(base, ps.drop_last(), outputs),
            scalar_mul_repr(
                if outputs {
                    ps.last().output@
                } else {
                    ps.last().input@
                },
                merge_scalar_repr(base, ps.last()),
            ),
        )
    }
}

/// One pass of the merge: accumulates the weighted sum of the pairs' input
/// or output points over the shared transcript state.
fn merge_pass(ps: &Vec<VRFInOut>, t: &SigningTranscript, outputs: bool) -> (r: CurvePoint)
    ensures
        r@ == merge_sum_repr(t@, ps@, outputs),
{
    let mut acc = CurvePoint::identity();
    let mut k: usize = 0;
    while k < ps.len()
        invariant
            k <= ps.len(),
            acc@ == merge_sum_repr(t@, ps@.subrange(0, k as int), outputs),
        decreases ps.len() - k,
    {
        let mut t0 = t.duplicate();
        ps[k].commit(&mut t0);
        let z = challenge_scalar_128(t0);
        let point = if outputs {
            &ps[k].output.point
        } else {
            &ps[k].input.point
        };
        acc = acc.add_point(&point.scalar_mul(&z));
        proof {
            assert(ps@.subrange(0, k + 1).drop_last() =~= ps@.subrange(0, k as int));
            assert(ps@.subrange(0, k + 1).last() == ps@[k as int]);
        }
        k += 1;
    }
    proof {
        assert(ps@.subrange(0, ps@.len() as int) =~= ps@);
    }
    acc
}

/// Merges VRF input/output pairs claimed from the same signer into one pair
/// under a verifier-chosen random linear combination, so that many VRF
/// relations can be checked as one. By linearity of the curve's scalar
/// multiplication the merged pair satisfies the same output = input * secret
/// relation as its constituents, with soundness bounded by the 128-bit
/// challenge space. Variable-time arithmetic is acceptable here because the
/// merged set is not secret. An empty list is a usage-contract violation and
/// is rejected, never a panic.
pub fn vrfs_merge(ps: &Vec<VRFInOut>) -> (r: Result<VRFInOut, VrfError>)
    ensures
        match r {
            Ok(m) => ps@.len() > 0 && m.input@ == merge_sum_repr(merge_base_repr(ps@), ps@, false)
                && m.output@ == merge_sum_repr(merge_base_repr(ps@), ps@, true),
            Err(e) => ps@.len() == 0 && e == VrfError::InvalidArgument,
        },
{
    if ps.len() == 0 {
        return Err(VrfError::InvalidArgument);
    }
    let mut t = SigningTranscript::new(&LABEL_MERGE_VRFS);
    let mut k: usize = 0;
    while k < ps.len()
        invariant
            k <= ps.len(),
            t@ == commit_list_repr(tr_init(LABEL_MERGE_VRFS@), ps@.subrange(0, k as int)),
        decreases ps.len() - k,
    {
        ps[k].commit(&mut t);
        proof {
            assert(ps@.subrange(0, k + 1).drop_last() =~= ps@.subrange(0, k as int));
            assert(ps@.subrange(0, k + 1).last() == ps@[k as int]);
        }
        k += 1;
    }
    proof {
        assert(ps@.subrange(0, ps@.len() as int) =~= ps@);
    }
    let input = VRFInput { point: merge_pass(ps, &t, false) };
    let output = VRFOutput { point: merge_pass(ps, &t, true) };
    Ok(VRFInOut { input, output })
}

// --- proved laws of the algebra above ---

/// Byte extraction is deterministic: two pairs with the same encodings and
/// the same context yield the same bytes, across any two calls.
pub proof fn lemma_make_bytes_deterministic(
    i1: Seq<u8>,
    o1: Seq<u8>,
    c1: Seq<u8>,
    i2: Seq<u8>,
    o2: Seq<u8>,
    c2: Seq<u8>,
    width: nat,
)
    requires
        i1 == i2,
        o1 == o2,
        c1 == c2,
    ensures
        make_bytes_repr(i1, o1, c1, width) == make_bytes_repr(i2, o2, c2, width),
{
}

/// The non-malleable derivation is deterministic: equal transcript states
/// and equal public keys yield the same input point.
pub proof fn lemma_nonmalleable_deterministic(t1: Seq<u8>, t2: Seq<u8>, pk1: Seq<u8>, pk2: Seq<u8>)
    requires
        t1 == t2,
        pk1 == pk2,
    ensures
        nonmalleable_input_repr(t1, pk1) == nonmalleable_input_repr(t2, pk2),
{
}

/// Encoding then decoding an output returns the same point: `write` always
/// yields a valid encoding, on which `read` cannot fail and returns a point
/// standing for that very encoding.
pub proof fn lemma_write_read_roundtrip(
    o: VRFOutput,
    written: Seq<u8>,
    r: Result<VRFOutput, VrfError>,
)
    requires
        written == o@,  // what `write` ensures of its result,
        point_decodes(written),  // together with validity
        match r {  // and what `read` ensures when given `written`
            Ok(o2) => point_decodes(written) && o2@ == written,
            Err(e) => !point_decodes(written) && e == VrfError::InvalidEncoding,
        },
    ensures
        r matches Ok(o2) && o2@ == o@,
{
}

/// Decoding then re-encoding an output is the identity on valid encodings:
/// `read` only succeeds on bytes the decoded point re-encodes to, so `write`
/// of what `read` returned is the original byte string.
pub proof fn lemma_read_write_roundtrip(bytes: Seq<u8>, decoded: VRFOutput, written: Seq<u8>)
    requires
        point_decodes(bytes),
        decoded@ == bytes,  // what `read` ensures of a successful decode
        written == decoded@,  // what `write` ensures of its result
    ensures
        written == bytes,
{
}

} // verus!
