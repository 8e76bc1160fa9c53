use felt_bridge::bridge::{pedersen_hash, poseidon_permute, verify_signature};
use felt_bridge::felt::{DecodeError, Felt};
use felt_bridge::primitives::{collapse, hash, permute, verify, verify_outcome, VerifyFailure};

fn hex_buffer(hex: &str) -> [u8; 32] {
    let digits: Vec<u8> = hex
        .bytes()
        .map(|c| match c {
            b'0'..=b'9' => c - b'0',
            b'a'..=b'f' => c - b'a' + 10,
            _ => panic!("not a lower-case hex digit"),
        })
        .collect();
    assert_eq!(digits.len(), 64);
    let mut out = [0u8; 32];
    for i in 0..32 {
        out[i] = digits[2 * i] * 16 + digits[2 * i + 1];
    }
    out
}

fn felt(hex: &str) -> Felt {
    Felt::from_bytes_be(&hex_buffer(hex)).expect("canonical")
}

const ZERO: &str = "0000000000000000000000000000000000000000000000000000000000000000";
const ONE: &str = "0000000000000000000000000000000000000000000000000000000000000001";
const TWO: &str = "0000000000000000000000000000000000000000000000000000000000000002";
const MODULUS: &str = "0800000000000011000000000000000000000000000000000000000000000001";

const KEY: &str = "01ef15c18599971b7beced415a40f0c7deacfd9b0d1819e03d723d8bc943cfca";
const SIG_R: &str = "0411494b501a98abd8262b0da1351e17899a0c4ef23dd2f96fec5ba847310b20";
const SIG_S: &str = "0405c3191ab3883ef2b763af35bc5f5d15b3b4e99461d70e84c654a351a7c81b";
const SIG_S_PLUS_ONE: &str = "0405c3191ab3883ef2b763af35bc5f5d15b3b4e99461d70e84c654a351a7c81c";

#[test]
fn pedersen_of_zero_and_zero() {
    let h = hash(&felt(ZERO), &felt(ZERO));
    assert_eq!(
        h.to_bytes_be(),
        hex_buffer("049ee3eba8c1600700ee1b87eb599f16716b0b1022947733551fde4050ca6804")
    );
}

#[test]
fn pedersen_published_vectors() {
    let vectors = [
        (
            "03d937c035c878245caf64531a5756109c53068da139362728feb561405371cb",
            "0208a0a10250e382e1e4bbe2880906c2791bf6275695e02fbbc6aeff9cd8b31a",
            "030e480bed5fe53fa909cc0f8c4d99b8f9f2c016be4c41e13a4848797979c662",
        ),
        (
            "058f580910a6ca59b28927c08fe6c43e2e303ca384badc365795fc645d479d45",
            "078734f65a067be9bdb39de18434d71e79f7b6466a4b66bbd979ab9e7515fe0b",
            "068cc0b76cddd1dd4ed2301ada9b7c872b23875d5ff837b3a87993e0d9996b87",
        ),
    ];
    for (a, b, expected) in vectors {
        assert_eq!(hash(&felt(a), &felt(b)).to_bytes_be(), hex_buffer(expected));
    }
}

#[test]
fn largest_element_passes_through_every_primitive() {
    let top = felt("0800000000000011000000000000000000000000000000000000000000000000");
    let zero = felt(ZERO);
    let h = hash(&top, &top);
    assert_eq!(Felt::from_bytes_be(&h.to_bytes_be()), Ok(h));
    let t = permute(&top, &top, &top);
    assert_eq!(Felt::from_bytes_be(&t.2.to_bytes_be()), Ok(t.2));
    assert_ne!(permute(&top, &zero, &zero), permute(&zero, &zero, &top));
    assert_eq!(
        verify_outcome(&felt(KEY), &top, &felt(SIG_R), &felt(SIG_S)),
        Err(VerifyFailure::InvalidMessageHash)
    );
    assert_eq!(
        verify_outcome(&felt(KEY), &felt(TWO), &top, &felt(SIG_S)),
        Err(VerifyFailure::InvalidR)
    );
    assert_eq!(
        verify_outcome(&felt(KEY), &felt(TWO), &felt(SIG_R), &top),
        Err(VerifyFailure::InvalidS)
    );
}

#[test]
fn pedersen_is_not_symmetric() {
    let a = felt("03d937c035c878245caf64531a5756109c53068da139362728feb561405371cb");
    let b = felt("0208a0a10250e382e1e4bbe2880906c2791bf6275695e02fbbc6aeff9cd8b31a");
    assert_ne!(hash(&a, &b), hash(&b, &a));
}

#[test]
fn pedersen_bridge_writes_the_hash() {
    let a = hex_buffer("03d937c035c878245caf64531a5756109c53068da139362728feb561405371cb");
    let b = hex_buffer("0208a0a10250e382e1e4bbe2880906c2791bf6275695e02fbbc6aeff9cd8b31a");
    let mut out = [0x55u8; 32];
    assert_eq!(pedersen_hash(&a, &b, &mut out), Ok(()));
    assert_eq!(
        out,
        hex_buffer("030e480bed5fe53fa909cc0f8c4d99b8f9f2c016be4c41e13a4848797979c662")
    );
}

#[test]
fn pedersen_bridge_is_repeatable() {
    let a = hex_buffer(ONE);
    let b = hex_buffer(TWO);
    let mut first = [0u8; 32];
    let mut second = [0xffu8; 32];
    assert_eq!(pedersen_hash(&a, &b, &mut first), Ok(()));
    assert_eq!(pedersen_hash(&a, &b, &mut second), Ok(()));
    assert_eq!(first, second);
}

#[test]
fn pedersen_bridge_refuses_a_non_canonical_input() {
    let good = hex_buffer(ONE);
    let bad = hex_buffer(MODULUS);
    let mut out = [0x55u8; 32];
    assert_eq!(pedersen_hash(&bad, &good, &mut out), Err(DecodeError::InvalidFieldElement));
    assert_eq!(out, [0x55u8; 32]);
    assert_eq!(pedersen_hash(&good, &bad, &mut out), Err(DecodeError::InvalidFieldElement));
    assert_eq!(out, [0x55u8; 32]);
}

#[test]
fn poseidon_of_the_zero_state() {
    let z = felt(ZERO);
    let t = permute(&z, &z, &z);
    assert_eq!(
        t.0.to_bytes_be(),
        hex_buffer("079e8d1e78258000a28fc9d49e233bc6852357968577b1e386550ed6a9086133")
    );
    assert_eq!(
        t.1.to_bytes_be(),
        hex_buffer("03840d003d0f3f96dbb796ff6aa6a63be5b5404b91ccaabca256154cbb6fb984")
    );
    assert_eq!(
        t.2.to_bytes_be(),
        hex_buffer("01eb39da3f7d3b04142d0ac83d9da00c9325a61fb2ef326e50b70eaa8a3c7cc7")
    );
}

#[test]
fn poseidon_published_hash_vectors() {
    let vectors = [
        (
            "000b662f9017fa7956fd70e26129b1833e10ad000fd37b4d9f4e0ce6884b7bbe",
            "001fe356bf76102cdae1bfbdc173602ead228b12904c00dad9cf16e035468bea",
            "075540825a6ecc5dc7d7c2f5f868164182742227f1367d66c43ee51ec7937a81",
        ),
        (
            "00f4e01b2032298f86b539e3d3ac05ced20d2ef275273f9325f8827717156529",
            "00587bc46f5f58e0511b93c31134652a689d761a9e7f234f0f130c52e4679f3a",
            "00bdb3180fdcfd6d6f172beb401af54dd71b6569e6061767234db2b777adf98b",
        ),
    ];
    for (x, y, expected) in vectors {
        let t = permute(&felt(x), &felt(y), &felt(TWO));
        assert_eq!(t.0.to_bytes_be(), hex_buffer(expected));
    }
}

#[test]
fn poseidon_depends_on_the_order_of_the_state() {
    let a = felt(ONE);
    let b = felt(TWO);
    let c = felt(ZERO);
    assert_ne!(permute(&a, &b, &c), permute(&b, &a, &c));
}

#[test]
fn poseidon_bridge_mutates_all_three_buffers() {
    let mut b0 = [0u8; 32];
    let mut b1 = [0u8; 32];
    let mut b2 = [0u8; 32];
    assert_eq!(poseidon_permute(&mut b0, &mut b1, &mut b2), Ok(()));
    assert_eq!(b0, hex_buffer("079e8d1e78258000a28fc9d49e233bc6852357968577b1e386550ed6a9086133"));
    assert_eq!(b1, hex_buffer("03840d003d0f3f96dbb796ff6aa6a63be5b5404b91ccaabca256154cbb6fb984"));
    assert_eq!(b2, hex_buffer("01eb39da3f7d3b04142d0ac83d9da00c9325a61fb2ef326e50b70eaa8a3c7cc7"));
}

#[test]
fn poseidon_bridge_agrees_with_permute() {
    let mut b0 = hex_buffer(ONE);
    let mut b1 = hex_buffer(TWO);
    let mut b2 = hex_buffer(KEY);
    let t = permute(&felt(ONE), &felt(TWO), &felt(KEY));
    assert_eq!(poseidon_permute(&mut b0, &mut b1, &mut b2), Ok(()));
    assert_eq!((b0, b1, b2), (t.0.to_bytes_be(), t.1.to_bytes_be(), t.2.to_bytes_be()));
}

#[test]
fn poseidon_bridge_refuses_a_non_canonical_buffer() {
    for bad_at in 0..3 {
        let mut bufs = [hex_buffer(ONE), hex_buffer(TWO), hex_buffer(KEY)];
        bufs[bad_at] = hex_buffer(MODULUS);
        let before = bufs;
        let [b0, b1, b2] = &mut bufs;
        assert_eq!(poseidon_permute(b0, b1, b2), Err(DecodeError::InvalidFieldElement));
        assert_eq!(bufs, before);
    }
}

#[test]
fn valid_signature_is_accepted() {
    assert!(verify(&felt(KEY), &felt(TWO), &felt(SIG_R), &felt(SIG_S)));
    assert_eq!(verify_outcome(&felt(KEY), &felt(TWO), &felt(SIG_R), &felt(SIG_S)), Ok(true));
    assert_eq!(
        verify_signature(&hex_buffer(KEY), &hex_buffer(TWO), &hex_buffer(SIG_R), &hex_buffer(SIG_S)),
        Ok(true)
    );
}

#[test]
fn signature_with_s_plus_one_is_rejected() {
    assert!(!verify(&felt(KEY), &felt(TWO), &felt(SIG_R), &felt(SIG_S_PLUS_ONE)));
    assert_eq!(
        verify_signature(
            &hex_buffer(KEY),
            &hex_buffer(TWO),
            &hex_buffer(SIG_R),
            &hex_buffer(SIG_S_PLUS_ONE)
        ),
        Ok(false)
    );
}

#[test]
fn published_invalid_signature_is_rejected() {
    let key = felt("077a4b314db07c45076d11f62b6f9e748a39790441823307743cf00d6597ea43");
    let msg = felt("0397e76d1667c4454bfb83514e120583af836f8e32a516765497823eabe16a3f");
    let r = felt("0173fd03d8b008ee7432977ac27d1e9d1a1f6c98b1a2f05fa84a21c84c44e882");
    let s = felt("01f2c44a7798f55192f153b4c48ea5c1241fbb69e6132cc8a0da9c5b62a4286e");
    assert_eq!(verify_outcome(&key, &msg, &r, &s), Ok(false));
    assert!(!verify(&key, &msg, &r, &s));
}

#[test]
fn key_off_the_curve_fails_closed() {
    let key = felt("03ee9bffffffffff26ffffffff60ffffffffffffffffffffffffffff004accff");
    assert_eq!(
        verify_outcome(&key, &felt(TWO), &felt(SIG_R), &felt(SIG_S)),
        Err(VerifyFailure::InvalidPublicKey)
    );
    assert!(!verify(&key, &felt(TWO), &felt(SIG_R), &felt(SIG_S)));
}

#[test]
fn zero_r_fails_closed() {
    assert_eq!(
        verify_outcome(&felt(KEY), &felt(TWO), &felt(ZERO), &felt(SIG_S)),
        Err(VerifyFailure::InvalidR)
    );
    assert!(!verify(&felt(KEY), &felt(TWO), &felt(ZERO), &felt(SIG_S)));
    assert_eq!(
        verify_signature(&hex_buffer(KEY), &hex_buffer(TWO), &hex_buffer(ZERO), &hex_buffer(SIG_S)),
        Ok(false)
    );
}

#[test]
fn zero_s_fails_closed() {
    assert_eq!(
        verify_outcome(&felt(KEY), &felt(TWO), &felt(SIG_R), &felt(ZERO)),
        Err(VerifyFailure::InvalidS)
    );
    assert!(!verify(&felt(KEY), &felt(TWO), &felt(SIG_R), &felt(ZERO)));
}

#[test]
fn message_out_of_range_fails_closed() {
    let msg = felt("0800000000000000000000000000000000000000000000000000000000000000");
    assert_eq!(
        verify_outcome(&felt(KEY), &msg, &felt(SIG_R), &felt(SIG_S)),
        Err(VerifyFailure::InvalidMessageHash)
    );
    assert!(!verify(&felt(KEY), &msg, &felt(SIG_R), &felt(SIG_S)));
}

#[test]
fn zero_message_is_not_accepted() {
    assert!(!verify(&felt(KEY), &felt(ZERO), &felt(SIG_R), &felt(SIG_S)));
}

#[test]
fn signature_under_another_message_is_rejected() {
    assert_eq!(verify_outcome(&felt(KEY), &felt(ONE), &felt(SIG_R), &felt(SIG_S)), Ok(false));
    assert_eq!(
        verify_signature(&hex_buffer(KEY), &hex_buffer(ONE), &hex_buffer(SIG_R), &hex_buffer(SIG_S)),
        Ok(false)
    );
}

#[test]
fn verify_bridge_refuses_a_non_canonical_buffer() {
    let good = [hex_buffer(KEY), hex_buffer(TWO), hex_buffer(SIG_R), hex_buffer(SIG_S)];
    for bad_at in 0..4 {
        let mut bufs = good;
        bufs[bad_at] = [0xffu8; 32];
        assert_eq!(
            verify_signature(&bufs[0], &bufs[1], &bufs[2], &bufs[3]),
            Err(DecodeError::InvalidFieldElement)
        );
    }
}

#[test]
fn collapse_accepts_only_a_valid_verdict() {
    assert!(collapse(Ok(true)));
    assert!(!collapse(Ok(false)));
    assert!(!collapse(Err(VerifyFailure::InvalidPublicKey)));
    assert!(!collapse(Err(VerifyFailure::InvalidMessageHash)));
    assert!(!collapse(Err(VerifyFailure::InvalidR)));
    assert!(!collapse(Err(VerifyFailure::InvalidS)));
}
