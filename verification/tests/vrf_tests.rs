use group::Group;
use rand_core::{RngCore, SeedableRng};
use ring_vrf::{
    AuthNode, AuthPath, AuthRoot, CurvePoint, ProverInstance, PublicKey, RingProver, Scalar,
    SecretKey, SigningTranscript, VRFInOut, VRFInput, VRFOutput, VrfError, vrfs_merge,
};

fn test_secret_key(seed: u128) -> SecretKey {
    SecretKey::from_scalar(Scalar::from_u128(seed))
}

fn empty_auth_path() -> AuthPath {
    AuthPath { nodes: Vec::new() }
}

/// A proving backend probe: counts its invocations and can be told to fail.
struct CountingProver {
    calls: usize,
    fail: bool,
}

impl RingProver for CountingProver {
    type Proof = u8;

    fn prove(&mut self, _instance: &ProverInstance) -> Result<u8, VrfError> {
        self.calls += 1;
        if self.fail { Err(VrfError::Synthesis) } else { Ok(42) }
    }
}

#[test]
fn malleable_derivation_matches_raw_primitives() {
    // The same derivation written directly over merlin, rand_chacha and
    // jubjub must give the very same input point.
    let mut raw = merlin::Transcript::new(b"test-proto");
    raw.append_message(b"ctx", b"block 1234");
    let mut seed = [0u8; 32];
    raw.challenge_bytes(b"vrf-input", &mut seed);
    let mut rng = rand_chacha::ChaCha20Rng::from_seed(seed);
    let expected =
        jubjub::AffinePoint::from(jubjub::ExtendedPoint::random(&mut rng).mul_by_cofactor())
            .to_bytes();

    let mut t = SigningTranscript::new(b"test-proto");
    t.commit_bytes(b"ctx", b"block 1234");
    let input = VRFInput::new_malleable(t);
    assert_eq!(input.point.encode(), expected);
}

#[test]
fn nonmalleable_differs_from_malleable_and_is_deterministic() {
    let pk = PublicKey::from_point(CurvePoint::from_seed(&[7u8; 32]));

    let malleable = VRFInput::new_malleable(SigningTranscript::new(b"same-context"));
    let nm1 = VRFInput::new_nonmalleable(SigningTranscript::new(b"same-context"), &pk);
    let nm2 = VRFInput::new_nonmalleable(SigningTranscript::new(b"same-context"), &pk);

    // Committing the public key changes the derivation.
    assert_ne!(malleable.point.encode(), nm1.point.encode());
    // The same transcript and key give the same point.
    assert_eq!(nm1.point.encode(), nm2.point.encode());
}

#[test]
fn ring_malleable_commits_the_root() {
    let root = AuthRoot { bytes: [5u8; 32] };

    let mut raw = merlin::Transcript::new(b"ring-context");
    raw.append_message(b"vrf-nm-ar", &[5u8; 32]);
    let mut seed = [0u8; 32];
    raw.challenge_bytes(b"vrf-input", &mut seed);
    let mut rng = rand_chacha::ChaCha20Rng::from_seed(seed);
    let expected =
        jubjub::AffinePoint::from(jubjub::ExtendedPoint::random(&mut rng).mul_by_cofactor())
            .to_bytes();

    let input = VRFInput::new_ring_malleable(SigningTranscript::new(b"ring-context"), &root);
    assert_eq!(input.point.encode(), expected);
}

#[test]
fn output_write_read_roundtrip() {
    let sk = test_secret_key(0x1001);
    let input = VRFInput::new_malleable(SigningTranscript::new(b"roundtrip"));
    let output = input.to_output(&sk);

    let bytes = output.write();
    let read_back = VRFOutput::read(&bytes).unwrap();
    assert_eq!(read_back.write(), bytes);
}

#[test]
fn output_read_rejects_invalid_bytes() {
    // The masked v-coordinate exceeds the base field's modulus.
    let r = VRFOutput::read(&[0xFFu8; 32]);
    assert!(matches!(r, Err(VrfError::InvalidEncoding)));
}

#[test]
fn output_to_output_differs_from_input() {
    let sk = test_secret_key(0x2002);
    let input = VRFInput::new_malleable(SigningTranscript::new(b"not-identity"));
    let output = input.to_output(&sk);
    assert_ne!(output.write(), input.point.encode());
}

#[test]
fn make_bytes_matches_raw_merlin() {
    let sk = test_secret_key(0x3003);
    let input = VRFInput::new_malleable(SigningTranscript::new(b"extraction"));
    let io = input.to_inout(&sk);

    let mut raw = merlin::Transcript::new(b"VRFResult");
    raw.append_message(b"", b"my-context");
    raw.append_message(b"vrf-in", &io.input.point.encode());
    raw.append_message(b"vrf-out", &io.output.point.encode());
    let mut expected = [0u8; 16];
    raw.challenge_bytes(b"", &mut expected);

    let got: [u8; 16] = io.make_bytes(b"my-context");
    assert_eq!(got, expected);
}

#[test]
fn make_bytes_is_deterministic_and_context_separated() {
    let sk = test_secret_key(0x4004);
    let input = VRFInput::new_malleable(SigningTranscript::new(b"determinism"));
    let io = input.to_inout(&sk);

    let a: [u8; 32] = io.make_bytes(b"ctx-a");
    let b: [u8; 32] = io.make_bytes(b"ctx-a");
    let c: [u8; 32] = io.make_bytes(b"ctx-b");
    assert_eq!(a, b);
    assert_ne!(a, c);
}

#[test]
fn make_chacharng_streams_the_output_bytes() {
    let sk = test_secret_key(0x5005);
    let input = VRFInput::new_malleable(SigningTranscript::new(b"streaming"));
    let io = input.to_inout(&sk);

    let seed: [u8; 32] = io.make_bytes(b"rng-context");
    let mut expected = rand_chacha::ChaCha20Rng::from_seed(seed);
    let mut got = io.make_chacharng(b"rng-context");
    for _ in 0..4 {
        assert_eq!(got.next_u64(), expected.next_u64());
    }
}

#[test]
fn attach_rebuilds_the_same_pair() {
    let sk = test_secret_key(0x6006);
    let pk = PublicKey::from_point(CurvePoint::from_seed(&[9u8; 32]));
    let input = VRFInput::new_nonmalleable(SigningTranscript::new(b"attach"), &pk);
    let io = input.to_inout(&sk);

    let reattached = io.output.attach_nonmalleable(SigningTranscript::new(b"attach"), &pk);
    assert_eq!(reattached.input.point.encode(), io.input.point.encode());
    assert_eq!(reattached.output.write(), io.output.write());
}

#[test]
fn merge_of_empty_list_is_an_error() {
    let r = vrfs_merge(&Vec::new());
    assert!(matches!(r, Err(VrfError::InvalidArgument)));
}

#[test]
fn merged_pair_satisfies_the_vrf_relation() {
    // Linearity: pairs from one secret key merge into a pair that satisfies
    // the same output = input * secret relation.
    let sk = test_secret_key(0x7007);
    let i1 = VRFInput::new_malleable(SigningTranscript::new(b"pair-one"));
    let i2 = VRFInput::new_malleable(SigningTranscript::new(b"pair-two"));
    let pairs = vec![i1.to_inout(&sk), i2.to_inout(&sk)];

    let merged = vrfs_merge(&pairs).unwrap();
    let expected_output = merged.input.to_output(&sk);
    assert_eq!(merged.output.write(), expected_output.write());
}

#[test]
fn merge_of_one_pair_keeps_the_relation() {
    let sk = test_secret_key(0x8008);
    let input = VRFInput::new_malleable(SigningTranscript::new(b"single"));
    let pairs = vec![input.to_inout(&sk)];

    let merged = vrfs_merge(&pairs).unwrap();
    assert_eq!(merged.output.write(), merged.input.to_output(&sk).write());
}

#[test]
fn merge_is_order_sensitive() {
    let sk = test_secret_key(0x9009);
    let a = VRFInput::new_malleable(SigningTranscript::new(b"first")).to_inout(&sk);
    let b = VRFInput::new_malleable(SigningTranscript::new(b"second")).to_inout(&sk);
    let ab = vrfs_merge(&vec![
        VRFInOut { input: VRFInput { point: a.input.point }, output: VRFOutput { point: a.output.point } },
        VRFInOut { input: VRFInput { point: b.input.point }, output: VRFOutput { point: b.output.point } },
    ])
    .unwrap();
    let ba = vrfs_merge(&vec![b, a]).unwrap();
    assert_ne!(ab.output.write(), ba.output.write());
}

#[test]
fn sign_after_check_short_circuits_without_proving() {
    let sk = test_secret_key(0xA00A);
    let input = VRFInput::new_malleable(SigningTranscript::new(b"lottery"));
    let mut prover = CountingProver { calls: 0, fail: false };

    let r = sk.ring_vrf_sign_after_check(input, |_io| None, empty_auth_path(), &mut prover);
    assert!(matches!(r, Ok(None)));
    // The losing evaluation never reached the proving backend.
    assert_eq!(prover.calls, 0);
}

#[test]
fn sign_after_check_proves_when_the_check_accepts() {
    let sk = test_secret_key(0xB00B);
    let input = VRFInput::new_malleable(SigningTranscript::new(b"winning"));
    let expected = input.to_output(&sk).write();
    let mut prover = CountingProver { calls: 0, fail: false };

    let r = sk.ring_vrf_sign_after_check(
        input,
        |_io| Some(SigningTranscript::new(b"extra-message")),
        empty_auth_path(),
        &mut prover,
    );
    let (output, proof) = r.unwrap().unwrap();
    assert_eq!(output.write(), expected);
    assert_eq!(proof, 42);
    assert_eq!(prover.calls, 1);
}

#[test]
fn sign_simple_returns_the_pair_and_proof() {
    let sk = test_secret_key(0xC00C);
    let input = VRFInput::new_malleable(SigningTranscript::new(b"simple"));
    let expected_in = input.point.encode();
    let expected_out = input.to_output(&sk).write();
    let mut prover = CountingProver { calls: 0, fail: false };

    let (io, proof) = sk.ring_vrf_sign_simple(input, empty_auth_path(), &mut prover).unwrap();
    assert_eq!(io.input.point.encode(), expected_in);
    assert_eq!(io.output.write(), expected_out);
    assert_eq!(proof, 42);
    assert_eq!(prover.calls, 1);
}

#[test]
fn backend_failure_propagates_as_synthesis() {
    let sk = test_secret_key(0xD00D);
    let input = VRFInput::new_malleable(SigningTranscript::new(b"failing"));
    let mut prover = CountingProver { calls: 0, fail: true };

    let r = sk.ring_vrf_sign_first(
        input,
        SigningTranscript::new(b"extra"),
        empty_auth_path(),
        &mut prover,
    );
    assert!(matches!(r, Err(VrfError::Synthesis)));
}

#[test]
fn instance_carries_the_witness() {
    let sk = test_secret_key(0xE00E);
    let input = VRFInput::new_malleable(SigningTranscript::new(b"witness"));
    let cleared = input.point.mul_by_cofactor().encode();
    let path = AuthPath {
        nodes: vec![AuthNode { sibling: [3u8; 32], current_is_right: true }],
    };

    let instance =
        sk.ring_vrf_instance(input, SigningTranscript::new(b"extra-data"), path);
    assert_eq!(instance.sk.encode(), Scalar::from_u128(0xE00E).encode());
    assert_eq!(instance.vrf_input.encode(), cleared);
    assert_eq!(instance.auth_path.nodes.len(), 1);
    assert_eq!(instance.auth_path.nodes[0].sibling, [3u8; 32]);
    assert!(instance.auth_path.nodes[0].current_is_right);

    // The extra-message scalar is the wide challenge of the extra transcript.
    let mut raw = merlin::Transcript::new(b"extra-data");
    let mut wide = [0u8; 64];
    raw.challenge_bytes(b"extra-msg", &mut wide);
    let expected = Scalar::from_wide_bytes(&wide);
    assert_eq!(instance.extra.encode(), expected.encode());
}

#[test]
fn scalar_from_u128_encodes_little_endian() {
    let s = Scalar::from_u128(0xABCD);
    let mut expected = [0u8; 32];
    expected[0] = 0xCD;
    expected[1] = 0xAB;
    assert_eq!(s.encode(), expected);
}

#[test]
fn wide_reduction_agrees_with_small_values() {
    // A 64-byte value below the modulus reduces to itself, so the wide
    // decoder and the 128-bit constructor must agree on small scalars.
    let mut wide = [0u8; 64];
    wide[0] = 0x11;
    wide[1] = 0x22;
    let s = Scalar::from_wide_bytes(&wide);
    assert_eq!(s.encode(), Scalar::from_u128(0x2211).encode());
}

#[test]
fn identity_point_encoding_is_one_then_zeros() {
    let id = CurvePoint::identity();
    let mut expected = [0u8; 32];
    expected[0] = 1;
    assert_eq!(id.encode(), expected);
    // And it decodes back.
    assert!(CurvePoint::decode(&expected).is_some());
}
