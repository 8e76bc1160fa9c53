//! Big-endian byte strings as natural numbers.

use vstd::prelude::*;

verus! {

/// The natural number that a byte string spells when read big-endian.
pub open spec fn be_value(s: Seq<u8>) -> nat
    decreases s.len(),
{
    if s.len() == 0 {
        0
    } else {
        be_value(s.drop_last()) * 256 + s.last() as nat
    }
}

/// 256 raised to the power `n`.
pub open spec fn radix_pow(n: nat) -> nat
    decreases n,
{
    if n == 0 {
        1
    } else {
        256 * radix_pow((n - 1) as nat)
    }
}

/// The `n` lowest base-256 digits of `v`, most significant first.
pub open spec fn be_bytes(v: nat, n: nat) -> Seq<u8>
    decreases n,
{
    if n == 0 {
        Seq::empty()
    } else {
        be_bytes(v / 256, (n - 1) as nat).push((v % 256) as u8)
    }
}

/// `be_bytes(v, n)` has exactly `n` bytes.
pub proof fn lemma_be_bytes_len(v: nat, n: nat)
    ensures
        be_bytes(v, n).len() == n,
    decreases n,
{
    if n > 0 {
        lemma_be_bytes_len(v / 256, (n - 1) as nat);
    }
}

/// A string of `n` bytes spells a number below `256^n`.
pub proof fn lemma_be_value_bound(s: Seq<u8>)
    ensures
        be_value(s) < radix_pow(s.len()),
    decreases s.len(),
{
    if s.len() > 0 {
        lemma_be_value_bound(s.drop_last());
    }
}

/// Writing a number below `256^n` in `n` bytes and reading it back gives the
/// number again.
pub proof fn lemma_value_of_bytes(v: nat, n: nat)
    requires
        v < radix_pow(n),
    ensures
        be_value(be_bytes(v, n)) == v,
    decreases n,
{
    if n > 0 {
        let head = be_bytes(v / 256, (n - 1) as nat);
        lemma_value_of_bytes(v / 256, (n - 1) as nat);
        assert(be_bytes(v, n).drop_last() =~= head);
        assert(be_bytes(v, n).last() == (v % 256) as u8);
    }
}

/// Reading a byte string and writing the number in as many bytes gives the
/// string again.
pub proof fn lemma_bytes_of_value(s: Seq<u8>)
    ensures
        be_bytes(be_value(s), s.len()) == s,
    decreases s.len(),
{
    if s.len() > 0 {
        let v = be_value(s);
        lemma_bytes_of_value(s.drop_last());
        assert(v / 256 == be_value(s.drop_last()));
        assert(v % 256 == s.last() as nat);
        assert(be_bytes(v, s.len()) =~= s);
    } else {
        assert(be_bytes(be_value(s), s.len()) =~= s);
    }
}

/// Once a prefix of `a` spells less than the prefix of `b` of the same
/// length, every longer pair of prefixes compares the same way.
pub proof fn lemma_prefix_decides(a: Seq<u8>, b: Seq<u8>, k: int, j: int)
    requires
        a.len() == b.len(),
        0 <= k <= j <= a.len(),
        be_value(a.take(k)) < be_value(b.take(k)),
    ensures
        be_value(a.take(j)) < be_value(b.take(j)),
    decreases j - k,
{
    if j > k {
        lemma_prefix_decides(a, b, k, j - 1);
        assert(a.take(j).drop_last() =~= a.take(j - 1));
        assert(b.take(j).drop_last() =~= b.take(j - 1));
    }
}

/// `256^(a + b)` is `256^a * 256^b`.
pub proof fn lemma_radix_pow_add(a: nat, b: nat)
    ensures
        radix_pow(a + b) == radix_pow(a) * radix_pow(b),
    decreases a,
{
    if a > 0 {
        let c = (a - 1) as nat;
        lemma_radix_pow_add(c, b);
        assert(radix_pow(a + b) == 256 * radix_pow(c + b));
        assert(radix_pow(a) == 256 * radix_pow(c));
        assert(256 * (radix_pow(c) * radix_pow(b)) == (256 * radix_pow(c)) * radix_pow(b))
            by (nonlinear_arith);
    } else {
        assert(radix_pow(0) == 1);
        assert(1 * radix_pow(b) == radix_pow(b));
    }
}

/// Zero bytes appended to a prefix shift its value: if the bytes of `s` from
/// `k` up to `j` are zero, the first `j` bytes spell the first `k` times
/// `256^(j - k)`.
pub proof fn lemma_zero_run(s: Seq<u8>, k: int, j: int)
    requires
        0 <= k <= j <= s.len(),
        forall|i: int| k <= i < j ==> s[i] == 0,
    ensures
        be_value(s.take(j)) == be_value(s.take(k)) * radix_pow((j - k) as nat),
    decreases j - k,
{
    if j > k {
        lemma_zero_run(s, k, j - 1);
        assert(s.take(j).drop_last() =~= s.take(j - 1));
        let x = be_value(s.take(k));
        let p = radix_pow((j - 1 - k) as nat);
        assert(radix_pow((j - k) as nat) == 256 * p);
        assert((x * p) * 256 == x * (256 * p)) by (nonlinear_arith);
    } else {
        assert(be_value(s.take(k)) * 1 == be_value(s.take(k)));
    }
}

/// Whether `a` spells a smaller number than `b`, decided at the first byte
/// in which the two differ.
pub fn is_below(a: &[u8; 32], b: &[u8; 32]) -> (r: bool)
    ensures
        r == (be_value(a@) < be_value(b@)),
{
    let mut i: usize = 0;
    while i < 32
        invariant
            i <= 32,
            a@.take(i as int) =~= b@.take(i as int),
        decreases 32 - i,
    {
        let x: u8 = a[i];
        let y: u8 = b[i];
        if x != y {
            proof {
                let j = i as int;
                assert(a@.take(j + 1).drop_last() =~= a@.take(j));
                assert(b@.take(j + 1).drop_last() =~= b@.take(j));
                assert(a@.take(32) =~= a@);
                assert(b@.take(32) =~= b@);
                if x < y {
                    lemma_prefix_decides(a@, b@, j + 1, 32);
                } else {
                    lemma_prefix_decides(b@, a@, j + 1, 32);
                }
            }
            return x < y;
        }
        proof {
            assert(a@.take(i as int + 1) =~= a@.take(i as int).push(a@[i as int]));
            assert(b@.take(i as int + 1) =~= b@.take(i as int).push(b@[i as int]));
        }
        i = i + 1;
    }
    proof {
        assert(a@.take(32) =~= a@);
        assert(b@.take(32) =~= b@);
    }
    false
}

} // verus!
