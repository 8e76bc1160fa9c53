//! The three operations on caller-owned 32-byte buffers: decode, compute,
//! encode. A buffer that is not canonical is reported, and nothing is written.

use vstd::prelude::*;
use crate::bytes::be_value;
use crate::felt::{decode, encode, is_canonical, lemma_canonical_unique, lemma_decode_encode, modulus,
    DecodeError, Felt};
use crate::primitives::{accepts, hash, pedersen_of, permute, poseidon_of, verify};

verus! {

/// The buffer that holds the Pedersen hash of the elements that `a` and `b`
/// hold.
pub open spec fn hashed_buffer(a: Seq<u8>, b: Seq<u8>) -> Seq<u8> {
    encode(pedersen_of(be_value(a), be_value(b)))
}

/// Writes the Pedersen hash of the elements in `a` and `b` into `out`.
/// Fails, leaving `out` as it was, exactly when `a` or `b` is not canonical.
pub fn pedersen_hash(a: &[u8; 32], b: &[u8; 32], out: &mut [u8; 32]) -> (res: Result<
    (),
    DecodeError,
>)
    ensures
        res is Ok <==> is_canonical(a@) && is_canonical(b@),
        res is Ok ==> final(out)@ == hashed_buffer(a@, b@),
        res is Ok ==> is_canonical(final(out)@),
        res is Err ==> *final(out) == *old(out),
        res is Err ==> res->Err_0 == DecodeError::InvalidFieldElement,
{
    let x = match Felt::from_bytes_be(a) {
        Ok(x) => x,
        Err(e) => {
            return Err(e);
        },
    };
    let y = match Felt::from_bytes_be(b) {
        Ok(y) => y,
        Err(e) => {
            return Err(e);
        },
    };
    hash(&x, &y).write_bytes_be(out);
    Ok(())
}

/// Replaces the state held in the three buffers, in this order, by its
/// Poseidon permutation. Fails, leaving all three as they were, exactly when
/// one of them is not canonical.
pub fn poseidon_permute(b0: &mut [u8; 32], b1: &mut [u8; 32], b2: &mut [u8; 32]) -> (res: Result<
    (),
    DecodeError,
>)
    ensures
        res is Ok <==> is_canonical(old(b0)@) && is_canonical(old(b1)@) && is_canonical(old(b2)@),
        res is Ok ==> (final(b0)@, final(b1)@, final(b2)@) == permuted_buffers(
            old(b0)@,
            old(b1)@,
            old(b2)@,
        ),
        res is Ok ==> is_canonical(final(b0)@) && is_canonical(final(b1)@) && is_canonical(
            final(b2)@,
        ),
        res is Err ==> *final(b0) == *old(b0) && *final(b1) == *old(b1) && *final(b2) == *old(b2),
        res is Err ==> res->Err_0 == DecodeError::InvalidFieldElement,
{
    let s0 = match Felt::from_bytes_be(b0) {
        Ok(x) => x,
        Err(e) => {
            return Err(e);
        },
    };
    let s1 = match Felt::from_bytes_be(b1) {
        Ok(x) => x,
        Err(e) => {
            return Err(e);
        },
    };
    let s2 = match Felt::from_bytes_be(b2) {
        Ok(x) => x,
        Err(e) => {
            return Err(e);
        },
    };
    let t = permute(&s0, &s1, &s2);
    t.0.write_bytes_be(b0);
    t.1.write_bytes_be(b1);
    t.2.write_bytes_be(b2);
    Ok(())
}

/// The three buffers that hold the permutation of the state that `b0`, `b1`
/// and `b2` hold.
pub open spec fn permuted_buffers(b0: Seq<u8>, b1: Seq<u8>, b2: Seq<u8>) -> (
    Seq<u8>,
    Seq<u8>,
    Seq<u8>,
) {
    let t = poseidon_of(be_value(b0), be_value(b1), be_value(b2));
    (encode(t.0), encode(t.1), encode(t.2))
}

/// Whether the signature that `r` and `s` hold is accepted for the message
/// hash that `message` holds under the key that `public_key` holds.
pub open spec fn buffers_accepted(
    public_key: Seq<u8>,
    message: Seq<u8>,
    r: Seq<u8>,
    s: Seq<u8>,
) -> bool {
    accepts(be_value(public_key), be_value(message), be_value(r), be_value(s))
}

/// Whether the signature in `r` and `s` is accepted for the message hash in
/// `message` under the key in `public_key`. Fails exactly when one of the
/// four buffers is not canonical; a signature that cannot be judged is not
/// accepted.
pub fn verify_signature(
    public_key: &[u8; 32],
    message: &[u8; 32],
    r: &[u8; 32],
    s: &[u8; 32],
) -> (res: Result<bool, DecodeError>)
    ensures
        res is Ok <==> is_canonical(public_key@) && is_canonical(message@) && is_canonical(r@)
            && is_canonical(s@),
        res is Ok ==> res->Ok_0 == buffers_accepted(public_key@, message@, r@, s@),
        res is Ok && (be_value(r@) == 0 || be_value(s@) == 0) ==> res->Ok_0 == false,
        res is Err ==> res->Err_0 == DecodeError::InvalidFieldElement,
{
    let k = match Felt::from_bytes_be(public_key) {
        Ok(x) => x,
        Err(e) => {
            return Err(e);
        },
    };
    let m = match Felt::from_bytes_be(message) {
        Ok(x) => x,
        Err(e) => {
            return Err(e);
        },
    };
    let x = match Felt::from_bytes_be(r) {
        Ok(x) => x,
        Err(e) => {
            return Err(e);
        },
    };
    let y = match Felt::from_bytes_be(s) {
        Ok(x) => x,
        Err(e) => {
            return Err(e);
        },
    };
    Ok(verify(&k, &m, &x, &y))
}

/// The hash written depends on the elements that the inputs hold and on
/// nothing else: inputs that decode alike give the same output buffer.
pub proof fn lemma_hash_deterministic(a1: Seq<u8>, b1: Seq<u8>, a2: Seq<u8>, b2: Seq<u8>)
    requires
        is_canonical(a1),
        is_canonical(b1),
        decode(a1) == decode(a2),
        decode(b1) == decode(b2),
    ensures
        a1 == a2,
        b1 == b2,
        hashed_buffer(a1, b1) == hashed_buffer(a2, b2),
{
    lemma_canonical_unique(a1, a2);
    lemma_canonical_unique(b1, b2);
}

/// The state written back depends on the elements that the three buffers
/// hold, in their order, and on nothing else.
pub proof fn lemma_permute_deterministic(
    a0: Seq<u8>,
    a1: Seq<u8>,
    a2: Seq<u8>,
    b0: Seq<u8>,
    b1: Seq<u8>,
    b2: Seq<u8>,
)
    requires
        is_canonical(a0),
        is_canonical(a1),
        is_canonical(a2),
        decode(a0) == decode(b0),
        decode(a1) == decode(b1),
        decode(a2) == decode(b2),
    ensures
        permuted_buffers(a0, a1, a2) == permuted_buffers(b0, b1, b2),
{
}

/// The answer depends on the elements that the four buffers hold and on
/// nothing else.
pub proof fn lemma_verify_deterministic(
    k1: Seq<u8>,
    m1: Seq<u8>,
    r1: Seq<u8>,
    s1: Seq<u8>,
    k2: Seq<u8>,
    m2: Seq<u8>,
    r2: Seq<u8>,
    s2: Seq<u8>,
)
    requires
        is_canonical(k1),
        is_canonical(m1),
        is_canonical(r1),
        is_canonical(s1),
        decode(k1) == decode(k2),
        decode(m1) == decode(m2),
        decode(r1) == decode(r2),
        decode(s1) == decode(s2),
    ensures
        buffers_accepted(k1, m1, r1, s1) == buffers_accepted(k2, m2, r2, s2),
{
}

/// Every output of the bridge is canonical again: what one call writes,
/// another call accepts.
pub proof fn lemma_outputs_canonical(v: nat)
    requires
        v < modulus(),
    ensures
        is_canonical(encode(v)),
        decode(encode(v)) == Some(v),
{
    lemma_decode_encode(v);
}

} // verus!
