//! The format's variable-length size encoding: little-endian groups of seven
//! value bits, the high bit of each byte set when another byte follows.

use vstd::prelude::*;

verus! {

/// The value that a group sequence encodes: groups are read until one has
/// its continuation bit clear, or until the sequence ends.
pub open spec fn unshifted(s: Seq<u8>) -> nat
    decreases s.len(),
{
    if s.len() == 0 {
        0
    } else if s[0] < 128 {
        s[0] as nat
    } else {
        (s[0] - 128) as nat + 128 * unshifted(s.drop_first())
    }
}

/// The canonical (shortest) encoding of `v`.
pub open spec fn shifted(v: nat) -> Seq<u8>
    decreases v,
{
    if v < 128 {
        seq![v as u8]
    } else {
        seq![(v % 128 + 128) as u8] + shifted(v / 128)
    }
}

/// Every byte but the last carries the continuation bit, the last does not,
/// and the last is zero only when it is the only byte.
pub open spec fn is_canonical(s: Seq<u8>) -> bool {
    &&& s.len() >= 1
    &&& forall|i: int| 0 <= i < s.len() - 1 ==> s[i] >= 128
    &&& s[s.len() - 1] < 128
    &&& (s.len() > 1 ==> s[s.len() - 1] != 0)
}

/// Number of bytes of the canonical encoding of `v`, for `v < 2^28`.
pub open spec fn shifted_len(v: nat) -> nat {
    if v < 0x80 {
        1
    } else if v < 0x4000 {
        2
    } else if v < 0x20_0000 {
        3
    } else {
        4
    }
}

/// Decoding the canonical encoding of any value below 2^28 gives the value
/// back, and that encoding is canonical and at most four bytes long.
pub proof fn lemma_varsize_round_trip(v: nat)
    requires
        v < 0x1000_0000,
    ensures
        unshifted(shifted(v)) == v,
        is_canonical(shifted(v)),
        shifted(v).len() == shifted_len(v),
    decreases v,
{
    if v >= 128 {
        lemma_varsize_round_trip(v / 128);
        let s = shifted(v);
        assert(s.drop_first() =~= shifted(v / 128));
        assert(s[0] == (v % 128 + 128) as u8);
        let t = shifted(v / 128);
        assert forall|i: int| 0 <= i < s.len() - 1 implies s[i] >= 128 by {
            if i > 0 {
                assert(s[i] == t[i - 1]);
            }
        }
        assert(s[s.len() - 1] == t[t.len() - 1]);
    }
}

/// Reading a group sequence stops at the first byte without the
/// continuation bit: what follows it is not read.
pub proof fn lemma_unshifted_stops(s: Seq<u8>, i: int)
    requires
        0 <= i < s.len(),
        s[i] < 128,
        forall|j: int| 0 <= j < i ==> s[j] >= 128,
    ensures
        unshifted(s) == unshifted(s.subrange(0, i + 1)),
    decreases i,
{
    if i > 0 {
        lemma_unshifted_stops(s.drop_first(), i - 1);
        assert(s.drop_first().subrange(0, i) =~= s.subrange(0, i + 1).drop_first());
    }
}

/// One step of a left-to-right read: a byte with the continuation bit set
/// contributes its seven low bits, the rest is read at a 128 times larger scale.
pub proof fn lemma_unshifted_step(s: Seq<u8>, i: int)
    requires
        0 <= i < s.len(),
    ensures
        s[i] >= 128 ==> unshifted(s.subrange(i, s.len() as int)) == (s[i] - 128) as nat + 128
            * unshifted(s.subrange(i + 1, s.len() as int)),
        s[i] < 128 ==> unshifted(s.subrange(i, s.len() as int)) == s[i] as nat,
{
    assert(s.subrange(i, s.len() as int).drop_first() =~= s.subrange(i + 1, s.len() as int));
}

pub open spec fn pow128(n: nat) -> nat
    decreases n,
{
    if n == 0 {
        1
    } else {
        128 * pow128((n - 1) as nat)
    }
}

pub proof fn lemma_pow128_bound(n: nat)
    requires
        n <= 3,
    ensures
        pow128(n) <= 0x20_0000,
        pow128(n + 1) == 128 * pow128(n),
        n == 2 ==> pow128(n + 1) == 0x20_0000,
{
    reveal_with_fuel(pow128, 4);
}

/// A sequence of `n` groups holds a value below `128^n`.
pub proof fn lemma_unshifted_bound(s: Seq<u8>)
    ensures
        unshifted(s) < pow128(s.len()),
    decreases s.len(),
{
    if s.len() > 0 {
        lemma_unshifted_bound(s.drop_first());
        if s[0] >= 128 {
            let r = unshifted(s.drop_first());
            let p = pow128(s.drop_first().len());
            assert((s[0] - 128) as nat + 128 * r < 128 * p) by (nonlinear_arith)
                requires r < p, s[0] < 256, s[0] >= 128;
        }
    }
}

} // verus!
