//! Unsigned LEB128: little-endian base-128 digits, each byte but the last
//! marked by its high bit.

use vstd::prelude::*;

verus! {

/// The canonical encoding of `v`.
pub open spec fn varint(v: nat) -> Seq<u8>
    decreases v,
{
    if v < 128 {
        seq![v as u8]
    } else {
        seq![(128 + v % 128) as u8] + varint(v / 128)
    }
}

/// The number that the base-128 digits of `s` stand for, the marker bits set
/// aside.
pub open spec fn varint_value(s: Seq<u8>) -> nat
    decreases s.len(),
{
    if s.len() == 0 {
        0
    } else {
        (s[0] % 128) as nat + 128 * varint_value(s.drop_first())
    }
}

/// Whether `s` is a canonical encoding: not empty, every byte but the last
/// marked, the last unmarked, and no zero digit at the top of a longer one.
pub open spec fn is_canonical_varint(s: Seq<u8>) -> bool {
    &&& s.len() > 0
    &&& forall|i: int| 0 <= i < s.len() - 1 ==> s[i] >= 128
    &&& s.last() < 128
    &&& s.len() > 1 ==> s.last() != 0
}

/// Encoding yields a canonical sequence that stands for the number encoded.
pub proof fn lemma_varint_is_canonical(v: nat)
    ensures
        is_canonical_varint(varint(v)),
        varint_value(varint(v)) == v,
    decreases v,
{
    if v < 128 {
        assert(varint(v).drop_first() =~= Seq::<u8>::empty());
        assert(varint_value(varint(v).drop_first()) == 0);
    } else {
        let rest = varint(v / 128);
        let s = varint(v);
        lemma_varint_is_canonical(v / 128);
        assert(s.drop_first() =~= rest);
        assert(s[0] == 128 + v % 128);
        assert forall|i: int| 0 <= i < s.len() - 1 implies s[i] >= 128 by {
            if i > 0 {
                assert(s[i] == rest[i - 1]);
            }
        }
        assert(s.last() == rest.last());
        if rest.len() == 1 {
            assert(v / 128 < 128 || varint(v / 128).len() > 1);
            assert(rest[0] == (v / 128) as u8);
        }
    }
}

/// A canonical sequence is the encoding of the number it stands for, so no
/// two canonical sequences stand for the same number.
pub proof fn lemma_canonical_varint_is_encoding(s: Seq<u8>)
    requires
        is_canonical_varint(s),
    ensures
        varint(varint_value(s)) == s,
    decreases s.len(),
{
    let rest = s.drop_first();
    if s.len() == 1 {
        assert(rest =~= Seq::<u8>::empty());
        assert(varint_value(rest) == 0);
        assert(varint(varint_value(s)) =~= s);
    } else {
        assert(rest.last() == s.last());
        assert forall|i: int| 0 <= i < rest.len() - 1 implies rest[i] >= 128 by {
            assert(rest[i] == s[i + 1]);
        }
        lemma_canonical_varint_is_encoding(rest);
        lemma_canonical_varint_is_positive(rest);
        let high = varint_value(rest);
        let low = (s[0] % 128) as nat;
        let v = varint_value(s);
        assert(v == low + 128 * high);
        assert(v >= 128);
        assert(v / 128 == high && v % 128 == low) by (nonlinear_arith)
            requires
                v == low + 128 * high,
                low < 128,
        ;
        assert(s[0] >= 128);
        assert(varint(v) =~= s);
    }
}

/// A canonical sequence longer than one byte, or with a non-zero only byte,
/// stands for a positive number.
pub proof fn lemma_canonical_varint_is_positive(s: Seq<u8>)
    requires
        is_canonical_varint(s),
        s.len() > 1 || s[0] != 0,
    ensures
        varint_value(s) > 0,
    decreases s.len(),
{
    let rest = s.drop_first();
    if s.len() == 1 {
        assert(rest =~= Seq::<u8>::empty());
        assert(varint_value(rest) == 0);
    } else {
        assert(rest.last() == s.last());
        assert forall|i: int| 0 <= i < rest.len() - 1 implies rest[i] >= 128 by {
            assert(rest[i] == s[i + 1]);
        }
        lemma_canonical_varint_is_positive(rest);
    }
}

/// The value of a sequence is at least the value of each of its tails.
pub proof fn lemma_varint_value_bounds_tail(s: Seq<u8>, from: int)
    requires
        0 <= from <= s.len(),
    ensures
        varint_value(s.subrange(from, s.len() as int)) <= varint_value(s),
    decreases from,
{
    if from == 0 {
        assert(s.subrange(0, s.len() as int) =~= s);
    } else {
        let rest = s.drop_first();
        lemma_varint_value_bounds_tail(rest, from - 1);
        assert(rest.subrange(from - 1, rest.len() as int) =~= s.subrange(from, s.len() as int));
    }
}

/// No encoding is the beginning of another: two encodings that begin the
/// same byte string are encodings of the same number.
pub proof fn lemma_varint_is_prefix_free(a: nat, x: Seq<u8>, b: nat, y: Seq<u8>)
    requires
        varint(a) + x == varint(b) + y,
    ensures
        a == b,
        x == y,
{
    let p = varint(a);
    let q = varint(b);
    let s = p + x;
    lemma_varint_is_canonical(a);
    lemma_varint_is_canonical(b);
    if p.len() < q.len() {
        assert(s[p.len() - 1] == p.last());
        assert((q + y)[p.len() - 1] == q[p.len() - 1]);
    } else if q.len() < p.len() {
        assert((q + y)[q.len() - 1] == q.last());
        assert(s[q.len() - 1] == p[q.len() - 1]);
    }
    assert(p.len() == q.len());
    assert(p =~= q) by {
        assert forall|i: int| 0 <= i < p.len() implies p[i] == q[i] by {
            assert(s[i] == p[i]);
            assert((q + y)[i] == q[i]);
        }
    }
    assert(x =~= y) by {
        assert(x.len() == y.len()) by {
            assert(s.len() == (q + y).len());
        }
        assert forall|i: int| 0 <= i < x.len() implies x[i] == y[i] by {
            assert(s[p.len() + i] == x[i]);
            assert((q + y)[q.len() + i] == y[i]);
        }
    }
}

/// `128` to the power `k`.
pub open spec fn pow128(k: nat) -> nat
    decreases k,
{
    if k == 0 {
        1
    } else {
        128 * pow128((k - 1) as nat)
    }
}

/// A number below `128` to the power `k` is encoded in at most `k` bytes.
pub proof fn lemma_varint_len(v: nat, k: nat)
    requires
        k >= 1,
        v < pow128(k),
    ensures
        1 <= varint(v).len() <= k,
    decreases k,
{
    if v >= 128 {
        assert(k >= 2) by {
            reveal_with_fuel(pow128, 2);
        }
        assert(v / 128 < pow128((k - 1) as nat));
        lemma_varint_len(v / 128, (k - 1) as nat);
    }
}

/// A 64-bit number is encoded in at most ten bytes.
pub proof fn lemma_varint_len_u64(v: u64)
    ensures
        1 <= varint(v as nat).len() <= 10,
{
    assert(pow128(10) == 0x40_0000_0000_0000_0000) by {
        reveal_with_fuel(pow128, 11);
    }
    lemma_varint_len(v as nat, 10);
}

/// Appends the canonical encoding of `v` to `out`.
pub fn write_varint(out: &mut Vec<u8>, v: u64)
    ensures
        final(out)@ == old(out)@ + varint(v as nat),
{
    let mut rest: u64 = v;
    while rest >= 128
        invariant
            out@ + varint(rest as nat) == old(out)@ + varint(v as nat),
        decreases rest,
    {
        let digit: u8 = (128 + rest % 128) as u8;
        proof {
            let tail = varint((rest / 128) as nat);
            assert(varint(rest as nat) == seq![digit] + tail);
            assert(out@.push(digit) + tail =~= out@ + (seq![digit] + tail));
        }
        out.push(digit);
        rest = rest / 128;
    }
    proof {
        assert(varint(rest as nat) == seq![rest as u8]);
        assert(out@.push(rest as u8) =~= out@ + seq![rest as u8]);
    }
    out.push(rest as u8);
}

/// Reads `bytes` as one canonical encoding of a 64-bit number: `Some` of the
/// number when `bytes` is exactly its encoding, `None` for every other input.
pub fn read_varint(bytes: &[u8]) -> (r: Option<u64>)
    ensures
        r matches Some(v) ==> varint(v as nat) == bytes@,
        r is None ==> forall|v: u64| varint(v as nat) != bytes@,
{
    let n: usize = bytes.len();
    if n == 0 {
        assert forall|v: u64| varint(v as nat) != bytes@ by {
            lemma_varint_is_canonical(v as nat);
        }
        return None;
    }
    let last: u8 = bytes[n - 1];
    if last >= 128 || (n > 1 && last == 0) {
        assert forall|v: u64| varint(v as nat) != bytes@ by {
            lemma_varint_is_canonical(v as nat);
        }
        return None;
    }
    let mut acc: u64 = last as u64;
    let mut i: usize = n - 1;
    proof {
        let tail = bytes@.subrange(i as int, n as int);
        assert(tail.drop_first() =~= Seq::<u8>::empty());
        assert(varint_value(tail.drop_first()) == 0);
        assert(tail[0] == last);
    }
    while i > 0
        invariant
            0 <= i < n,
            n == bytes@.len(),
            acc == varint_value(bytes@.subrange(i as int, n as int)),
            forall|j: int| i <= j < n - 1 ==> bytes@[j] >= 128,
            bytes@.last() < 128,
            n > 1 ==> bytes@.last() != 0,
        decreases i,
    {
        let b: u8 = bytes[i - 1];
        if b < 128 {
            assert forall|v: u64| varint(v as nat) != bytes@ by {
                lemma_varint_is_canonical(v as nat);
            }
            return None;
        }
        let digit: u64 = (b - 128) as u64;
        proof {
            let tail = bytes@.subrange(i - 1, n as int);
            assert(tail.drop_first() =~= bytes@.subrange(i as int, n as int));
            assert(tail[0] == b);
            assert(varint_value(tail) == digit + 128 * acc);
        }
        if acc > (u64::MAX - digit) / 128 {
            proof {
                lemma_varint_value_bounds_tail(bytes@, i - 1);
                assert(varint_value(bytes@) > u64::MAX);
            }
            assert forall|v: u64| varint(v as nat) != bytes@ by {
                lemma_varint_is_canonical(v as nat);
            }
            return None;
        }
        acc = digit + 128 * acc;
        i = i - 1;
    }
    proof {
        assert(bytes@.subrange(0, n as int) =~= bytes@);
        lemma_canonical_varint_is_encoding(bytes@);
    }
    Some(acc)
}

} // verus!
