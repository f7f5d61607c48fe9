//! Little-endian integers and fixed-width byte comparisons.
use vstd::prelude::*;

verus! {

/// The unsigned value of `s` read least significant byte first.
pub open spec fn le_value(s: Seq<u8>) -> nat
    decreases s.len(),
{
    if s.len() == 0 {
        0
    } else {
        s[0] as nat + 256 * le_value(s.subrange(1, s.len() as int))
    }
}

pub open spec fn pow256(n: nat) -> nat
    decreases n,
{
    if n == 0 {
        1
    } else {
        256 * pow256((n - 1) as nat)
    }
}

/// A value read from `n` bytes is below `256^n`.
pub proof fn lemma_le_value_bound(s: Seq<u8>)
    ensures
        le_value(s) < pow256(s.len()),
    decreases s.len(),
{
    if s.len() > 0 {
        let t = s.subrange(1, s.len() as int);
        lemma_le_value_bound(t);
        assert(t.len() == s.len() - 1);
        assert(le_value(s) < pow256(s.len())) by (nonlinear_arith)
            requires
                le_value(s) == s[0] as nat + 256 * le_value(t),
                le_value(t) < pow256(t.len()),
                pow256(s.len()) == 256 * pow256(t.len()),
                s[0] < 256,
        ;
    }
}

pub proof fn lemma_pow256_8()
    ensures
        pow256(8) == 0x1_0000_0000_0000_0000,
{
    reveal_with_fuel(pow256, 9);
}

/// The `n` little-endian bytes of `v`, dropping what does not fit.
pub open spec fn le_bytes(v: nat, n: nat) -> Seq<u8>
    decreases n,
{
    if n == 0 {
        Seq::empty()
    } else {
        seq![(v % 256) as u8] + le_bytes(v / 256, (n - 1) as nat)
    }
}

/// A byte string is the little-endian encoding of its own value.
pub proof fn lemma_le_bytes_of_value(s: Seq<u8>)
    ensures
        s == le_bytes(le_value(s), s.len()),
    decreases s.len(),
{
    if s.len() > 0 {
        let t = s.subrange(1, s.len() as int);
        lemma_le_bytes_of_value(t);
        let v = le_value(s);
        let a = s[0] as nat;
        let b = le_value(t);
        assert(v == a + 256 * b);
        assert(v % 256 == a && v / 256 == b) by (nonlinear_arith)
            requires
                v == a + 256 * b,
                a < 256,
        ;
        assert(s =~= seq![s[0]] + t);
    }
}

/// Encoding a value that fits and reading it back gives the value.
pub proof fn lemma_le_value_of_bytes(v: nat, n: nat)
    requires
        v < pow256(n),
    ensures
        le_value(le_bytes(v, n)) == v,
        le_bytes(v, n).len() == n,
    decreases n,
{
    if n > 0 {
        let s = le_bytes(v, n);
        assert(v / 256 < pow256((n - 1) as nat)) by (nonlinear_arith)
            requires
                v < pow256(n),
                pow256(n) == 256 * pow256((n - 1) as nat),
        ;
        lemma_le_value_of_bytes(v / 256, (n - 1) as nat);
        assert(s.subrange(1, s.len() as int) =~= le_bytes(v / 256, (n - 1) as nat));
        assert(v == (v % 256) + 256 * (v / 256)) by (nonlinear_arith);
    } else {
        assert(pow256(0) == 1);
    }
}

/// Reads eight bytes as a little-endian `u64`.
pub fn u64_from_le(b: &[u8; 8]) -> (r: u64)
    ensures
        r as nat == le_value(b@),
{
    let mut acc: u64 = 0;
    let mut i: usize = 8;
    proof {
        assert(b@.subrange(8, 8) =~= Seq::<u8>::empty());
        lemma_pow256_8();
    }
    while i > 0
        invariant
            0 <= i <= 8,
            b@.len() == 8,
            acc as nat == le_value(b@.subrange(i as int, 8)),
            pow256(8) == 0x1_0000_0000_0000_0000,
        decreases i,
    {
        let ghost tail = b@.subrange(i as int, 8);
        i = i - 1;
        let ghost s = b@.subrange(i as int, 8);
        proof {
            assert(s.subrange(1, s.len() as int) =~= tail);
            assert(s[0] == b@[i as int]);
            lemma_le_value_bound(s);
            assert(pow256(s.len()) <= pow256(8)) by {
                lemma_pow256_mono(s.len(), 8);
            }
        }
        acc = acc * 256 + b[i] as u64;
    }
    assert(b@.subrange(0, 8) =~= b@);
    acc
}

proof fn lemma_pow256_mono(a: nat, b: nat)
    requires
        a <= b,
    ensures
        pow256(a) <= pow256(b),
    decreases b,
{
    if a < b {
        lemma_pow256_mono(a, (b - 1) as nat);
    }
}

proof fn lemma_le_value_push(s: Seq<u8>, x: u8)
    ensures
        le_value(s.push(x)) == le_value(s) + pow256(s.len()) * x,
    decreases s.len(),
{
    let t = s.push(x);
    if s.len() == 0 {
        assert(t.subrange(1, t.len() as int) =~= Seq::<u8>::empty());
        assert(le_value(t.subrange(1, t.len() as int)) == 0);
        assert(le_value(s) == 0);
        assert(pow256(0) == 1);
        assert(t[0] == x);
    } else {
        let tail = s.subrange(1, s.len() as int);
        assert(t.subrange(1, t.len() as int) =~= tail.push(x));
        lemma_le_value_push(tail, x);
        assert(pow256(s.len()) == 256 * pow256(tail.len()));
        assert(le_value(t) == le_value(s) + pow256(s.len()) * x) by (nonlinear_arith)
            requires
                le_value(t) == t[0] as nat + 256 * le_value(tail.push(x)),
                le_value(tail.push(x)) == le_value(tail) + pow256(tail.len()) * x,
                le_value(s) == s[0] as nat + 256 * le_value(tail),
                pow256(s.len()) == 256 * pow256(tail.len()),
                t[0] == s[0],
        ;
    }
}

/// Writes `v` as eight little-endian bytes.
pub fn u64_to_le(v: u64) -> (r: [u8; 8])
    ensures
        le_value(r@) == v as nat,
        r@ == le_bytes(v as nat, 8),
{
    let mut out: [u8; 8] = [0u8; 8];
    let mut rest: u64 = v;
    let mut i: usize = 0;
    proof {
        assert(out@.subrange(0, 0) =~= Seq::<u8>::empty());
        assert(le_value(out@.subrange(0, 0)) == 0);
        assert(pow256(0) == 1);
    }
    while i < 8
        invariant
            0 <= i <= 8,
            out@.len() == 8,
            le_value(out@.subrange(0, i as int)) + pow256(i as nat) * rest == v,
        decreases 8 - i,
    {
        let ghost prefix = out@.subrange(0, i as int);
        let byte = (rest % 256) as u8;
        out[i] = byte;
        proof {
            assert(out@.subrange(0, i + 1) =~= prefix.push(byte));
            lemma_le_value_push(prefix, byte);
            assert(pow256((i + 1) as nat) == 256 * pow256(i as nat));
            let p = pow256(i as nat);
            assert(p * (rest % 256) as nat + 256 * p * (rest / 256) as nat == p * rest)
                by (nonlinear_arith);
        }
        rest = rest / 256;
        i = i + 1;
    }
    proof {
        assert(out@.subrange(0, 8) =~= out@);
        lemma_pow256_8();
        assert(rest == 0) by (nonlinear_arith)
            requires
                le_value(out@) + pow256(8) * rest == v,
                pow256(8) == 0x1_0000_0000_0000_0000,
                v < 0x1_0000_0000_0000_0000,
        ;
        lemma_le_bytes_of_value(out@);
    }
    out
}

} // verus!

verus! {

/// Compares two 32-byte values.
pub fn bytes32_eq(a: &[u8; 32], b: &[u8; 32]) -> (r: bool)
    ensures
        r == (a@ == b@),
{
    let mut i: usize = 0;
    while i < 32
        invariant
            0 <= i <= 32,
            a@.len() == 32,
            b@.len() == 32,
            forall|k: int| 0 <= k < i ==> a@[k] == b@[k],
        decreases 32 - i,
    {
        if a[i] != b[i] {
            return false;
        }
        i = i + 1;
    }
    assert(a@ =~= b@);
    true
}

} // verus!

verus! {

/// Compares two byte strings.
pub fn bytes_eq(a: &[u8], b: &[u8]) -> (r: bool)
    ensures
        r == (a@ == b@),
{
    if a.len() != b.len() {
        return false;
    }
    let mut i: usize = 0;
    while i < a.len()
        invariant
            0 <= i <= a@.len(),
            a@.len() == b@.len(),
            forall|k: int| 0 <= k < i ==> a@[k] == b@[k],
        decreases a@.len() - i,
    {
        if a[i] != b[i] {
            return false;
        }
        i = i + 1;
    }
    assert(a@ =~= b@);
    true
}

} // verus!
