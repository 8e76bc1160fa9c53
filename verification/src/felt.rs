//! The field element and its codec: 32 big-endian bytes, canonical when the
//! number they spell is below the field's modulus.

use vstd::prelude::*;
use crate::bytes::{be_bytes, be_value, is_below, lemma_be_bytes_len, lemma_be_value_bound,
    lemma_bytes_of_value, lemma_radix_pow_add, lemma_value_of_bytes, lemma_zero_run, radix_pow};

verus! {

/// The big-endian bytes of the field's modulus,
/// `0x0800000000000011000000000000000000000000000000000000000000000001`.
pub open spec fn modulus_bytes() -> Seq<u8> {
    Seq::new(
        32,
        |i: int|
            if i == 0 {
                0x08u8
            } else if i == 7 {
                0x11u8
            } else if i == 31 {
                0x01u8
            } else {
                0x00u8
            },
    )
}

/// The field's modulus, the prime `2^251 + 17 * 2^192 + 1`, written in
/// powers of 256.
pub open spec fn modulus() -> nat {
    8 * radix_pow(31) + 17 * radix_pow(24) + 1
}

/// The bytes of the modulus spell the modulus.
pub proof fn lemma_modulus_bytes()
    ensures
        be_value(modulus_bytes()) == modulus(),
{
    let m = modulus_bytes();
    assert(m.take(1).drop_last() =~= m.take(0));
    assert(be_value(m.take(0)) == 0);
    assert(be_value(m.take(1)) == 8);
    lemma_zero_run(m, 1, 7);
    assert(m.take(8).drop_last() =~= m.take(7));
    assert(be_value(m.take(8)) == 8 * radix_pow(6) * 256 + 17);
    lemma_zero_run(m, 8, 31);
    assert(m.take(32).drop_last() =~= m.take(31));
    assert(m.take(32) =~= m);
    let p6 = radix_pow(6);
    let p7 = radix_pow(7);
    let p23 = radix_pow(23);
    let p24 = radix_pow(24);
    assert(p7 == 256 * p6);
    assert(p24 == 256 * p23);
    lemma_radix_pow_add(7, 24);
    assert(be_value(m) == (8 * p6 * 256 + 17) * p23 * 256 + 1);
    assert((8 * p6 * 256 + 17) * p23 * 256 + 1 == 8 * (p7 * p24) + 17 * p24 + 1) by (nonlinear_arith)
        requires
            p7 == 256 * p6,
            p24 == 256 * p23,
    ;
}

/// A buffer is canonical when it has 32 bytes that spell a number below the
/// modulus.
pub open spec fn is_canonical(b: Seq<u8>) -> bool {
    b.len() == 32 && be_value(b) < modulus()
}

/// The field element that a buffer holds, if it is canonical.
pub open spec fn decode(b: Seq<u8>) -> Option<nat> {
    if is_canonical(b) {
        Some(be_value(b))
    } else {
        None
    }
}

/// The 32 big-endian bytes of a field element.
pub open spec fn encode(v: nat) -> Seq<u8> {
    be_bytes(v, 32)
}

/// Why a buffer was refused.
#[derive(Clone, Copy, Debug, PartialEq, Eq)]
pub enum DecodeError {
    /// The buffer spells a number that is not below the modulus.
    InvalidFieldElement,
}

/// An element of the field, held as its canonical bytes.
#[derive(Clone, Copy, Debug, PartialEq, Eq)]
pub struct Felt {
    bytes: [u8; 32],
}

impl View for Felt {
    type V = nat;

    closed spec fn view(&self) -> nat {
        be_value(self.bytes@)
    }
}

/// The modulus as a buffer.
pub fn modulus_be() -> (m: [u8; 32])
    ensures
        m@ == modulus_bytes(),
{
    let mut m: [u8; 32] = [0u8; 32];
    m[0] = 0x08;
    m[7] = 0x11;
    m[31] = 0x01;
    assert(m@ =~= modulus_bytes());
    m
}

impl Felt {
    #[verifier::type_invariant]
    closed spec fn well_formed(&self) -> bool {
        be_value(self.bytes@) < modulus()
    }

    /// Decodes a buffer: the element it spells if that is below the modulus,
    /// and `InvalidFieldElement` otherwise.
    pub fn from_bytes_be(bytes: &[u8; 32]) -> (r: Result<Felt, DecodeError>)
        ensures
            r is Ok <==> is_canonical(bytes@),
            r is Ok ==> Some(r->Ok_0@) == decode(bytes@),
            r is Err ==> r->Err_0 == DecodeError::InvalidFieldElement,
    {
        let m = modulus_be();
        proof {
            lemma_modulus_bytes();
        }
        if is_below(bytes, &m) {
            Ok(Felt { bytes: *bytes })
        } else {
            Err(DecodeError::InvalidFieldElement)
        }
    }

    /// The element that a canonical buffer holds.
    pub(crate) fn from_canonical(bytes: [u8; 32]) -> (x: Felt)
        requires
            is_canonical(bytes@),
        ensures
            x@ == be_value(bytes@),
    {
        Felt { bytes }
    }

    /// Encodes the element: its canonical 32 bytes.
    pub fn to_bytes_be(&self) -> (r: [u8; 32])
        ensures
            r@ == encode(self@),
            decode(r@) == Some(self@),
    {
        proof {
            use_type_invariant(self);
            lemma_bytes_of_value(self.bytes@);
        }
        self.bytes
    }

    /// Encodes the element into a caller's buffer, byte by byte.
    pub fn write_bytes_be(&self, out: &mut [u8; 32])
        ensures
            final(out)@ == encode(self@),
            decode(final(out)@) == Some(self@),
    {
        let mut i: usize = 0;
        while i < 32
            invariant
                i <= 32,
                forall|j: int| 0 <= j < i ==> out@[j] == self.bytes@[j],
            decreases 32 - i,
        {
            out[i] = self.bytes[i];
            i = i + 1;
        }
        proof {
            use_type_invariant(self);
            lemma_bytes_of_value(self.bytes@);
            assert(out@ =~= self.bytes@);
        }
    }
}

/// Encoding a field element and decoding the bytes gives the element again.
pub proof fn lemma_decode_encode(x: nat)
    requires
        x < modulus(),
    ensures
        decode(encode(x)) == Some(x),
{
    lemma_modulus_bytes();
    lemma_be_value_bound(modulus_bytes());
    lemma_be_bytes_len(x, 32);
    lemma_value_of_bytes(x, 32);
}

/// Decoding a canonical buffer and encoding the element gives the buffer
/// again.
pub proof fn lemma_encode_decode(b: Seq<u8>)
    requires
        is_canonical(b),
    ensures
        encode(decode(b)->Some_0) == b,
{
    lemma_bytes_of_value(b);
}

/// Two canonical buffers that hold the same element are the same buffer.
pub proof fn lemma_canonical_unique(a: Seq<u8>, b: Seq<u8>)
    requires
        is_canonical(a),
        is_canonical(b),
        decode(a) == decode(b),
    ensures
        a == b,
{
    lemma_bytes_of_value(a);
    lemma_bytes_of_value(b);
}

/// A 32-byte buffer that spells the modulus or more holds no field element.
pub proof fn lemma_out_of_range_rejected(b: Seq<u8>)
    requires
        b.len() == 32,
        be_value(b) >= modulus(),
    ensures
        decode(b) is None,
{
}

/// The modulus's own bytes hold no field element.
pub proof fn lemma_modulus_rejected()
    ensures
        decode(modulus_bytes()) is None,
{
    lemma_modulus_bytes();
}

} // verus!
