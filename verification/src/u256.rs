//! Fixed-width 256-bit unsigned integers stored as 32 big-endian bytes.
//!
//! Remote chains exchange amounts as 256-bit integers while the host chain
//! works with 64-bit amounts; only the low-order 8 bytes are ever populated
//! locally. Narrowing back to 64 bits comes in two flavours: a plain one
//! that ignores the upper 24 bytes, and a checked one for trust boundaries
//! that refuses values that do not fit.

use vstd::prelude::*;

verus! {

use vstd::arithmetic::power::pow;
use vstd::arithmetic::power::lemma_pow_adds;
use vstd::arithmetic::power::lemma_pow_positive;
use vstd::arithmetic::div_mod::lemma_mod_breakdown;
use vstd::arithmetic::div_mod::lemma_div_denominator;

/// 256^e, the weight of a byte `e` positions above the least significant one.
pub open spec fn pow256(e: nat) -> int {
    pow(256, e)
}

/// The natural number denoted by a byte string read in big-endian order.
pub open spec fn be_bytes_value(s: Seq<u8>) -> int
    decreases s.len(),
{
    if s.len() == 0 {
        0
    } else {
        be_bytes_value(s.drop_last()) * 256 + s.last()
    }
}

/// The values of the byte weights used for 64-bit conversions.
pub proof fn lemma_pow256_values()
    ensures
        pow256(0) == 1,
        pow256(1) == 0x100,
        pow256(2) == 0x1_0000,
        pow256(3) == 0x100_0000,
        pow256(4) == 0x1_0000_0000,
        pow256(5) == 0x100_0000_0000,
        pow256(6) == 0x1_0000_0000_0000,
        pow256(7) == 0x100_0000_0000_0000,
        pow256(8) == 0x1_0000_0000_0000_0000,
{
    assert(pow256(0) == 1) by { reveal_with_fuel(pow, 1); }
    assert(pow256(1) == 0x100 * pow256(0)) by { reveal_with_fuel(pow, 2); }
    assert(pow256(2) == 0x100 * pow256(1)) by { reveal_with_fuel(pow, 2); }
    assert(pow256(3) == 0x100 * pow256(2)) by { reveal_with_fuel(pow, 2); }
    assert(pow256(4) == 0x100 * pow256(3)) by { reveal_with_fuel(pow, 2); }
    assert(pow256(5) == 0x100 * pow256(4)) by { reveal_with_fuel(pow, 2); }
    assert(pow256(6) == 0x100 * pow256(5)) by { reveal_with_fuel(pow, 2); }
    assert(pow256(7) == 0x100 * pow256(6)) by { reveal_with_fuel(pow, 2); }
    assert(pow256(8) == 0x100 * pow256(7)) by { reveal_with_fuel(pow, 2); }
}

/// A big-endian byte string denotes a value below 256^length.
pub proof fn lemma_be_bytes_value_bound(s: Seq<u8>)
    ensures
        0 <= be_bytes_value(s) < pow256(s.len()),
    decreases s.len(),
{
    if s.len() == 0 {
        assert(pow256(0) == 1) by { reveal_with_fuel(pow, 1); }
    } else {
        lemma_be_bytes_value_bound(s.drop_last());
        lemma_pow_adds(256, (s.len() - 1) as nat, 1);
        assert(pow256(1) == 256) by { reveal_with_fuel(pow, 2); }
        assert(be_bytes_value(s.drop_last()) * 256 + s.last() < pow256((s.len() - 1) as nat) * 256)
            by (nonlinear_arith)
            requires
                be_bytes_value(s.drop_last()) < pow256((s.len() - 1) as nat),
                s.last() < 256,
        ;
    }
}

/// Concatenation shifts the left part by the weight of the right part.
pub proof fn lemma_be_bytes_value_append(a: Seq<u8>, b: Seq<u8>)
    ensures
        be_bytes_value(a + b) == be_bytes_value(a) * pow256(b.len()) + be_bytes_value(b),
    decreases b.len(),
{
    if b.len() == 0 {
        assert(a + b =~= a);
        assert(pow256(0) == 1) by { reveal_with_fuel(pow, 1); }
    } else {
        lemma_be_bytes_value_append(a, b.drop_last());
        assert((a + b).drop_last() =~= a + b.drop_last());
        lemma_pow_adds(256, (b.len() - 1) as nat, 1);
        assert(pow256(1) == 256) by { reveal_with_fuel(pow, 2); }
        assert((be_bytes_value(a) * pow256((b.len() - 1) as nat) + be_bytes_value(b.drop_last()))
            * 256 == be_bytes_value(a) * (pow256((b.len() - 1) as nat) * 256)
            + be_bytes_value(b.drop_last()) * 256) by (nonlinear_arith);
    }
}

/// A byte string denotes zero exactly when every byte is zero.
pub proof fn lemma_be_bytes_value_zero(s: Seq<u8>)
    ensures
        be_bytes_value(s) == 0 <==> (forall|i: int| 0 <= i < s.len() ==> s[i] == 0),
    decreases s.len(),
{
    if s.len() > 0 {
        lemma_be_bytes_value_zero(s.drop_last());
        lemma_be_bytes_value_bound(s.drop_last());
        if be_bytes_value(s) == 0 {
            assert(be_bytes_value(s.drop_last()) == 0 && s.last() == 0) by (nonlinear_arith)
                requires
                    be_bytes_value(s.drop_last()) * 256 + s.last() == 0,
                    be_bytes_value(s.drop_last()) >= 0,
                    s.last() >= 0,
            ;
            assert(forall|i: int| 0 <= i < s.len() ==> s[i] == 0) by {
                assert(forall|i: int| 0 <= i < s.len() - 1 ==> s[i] == s.drop_last()[i]);
            }
        }
        if forall|i: int| 0 <= i < s.len() ==> s[i] == 0 {
            assert(forall|i: int| 0 <= i < s.len() - 1 ==> s.drop_last()[i] == s[i]);
            assert(s.last() == 0);
        }
    }
}

/// Byte strings of equal length denoting the same value are equal: the
/// big-endian reading is injective.
pub proof fn lemma_be_bytes_value_injective(s1: Seq<u8>, s2: Seq<u8>)
    requires
        s1.len() == s2.len(),
        be_bytes_value(s1) == be_bytes_value(s2),
    ensures
        s1 == s2,
    decreases s1.len(),
{
    if s1.len() == 0 {
        assert(s1 =~= s2);
    } else {
        let v = be_bytes_value(s1);
        lemma_be_bytes_value_bound(s1.drop_last());
        lemma_be_bytes_value_bound(s2.drop_last());
        vstd::arithmetic::div_mod::lemma_fundamental_div_mod_converse(
            v,
            256,
            be_bytes_value(s1.drop_last()),
            s1.last() as int,
        );
        vstd::arithmetic::div_mod::lemma_fundamental_div_mod_converse(
            v,
            256,
            be_bytes_value(s2.drop_last()),
            s2.last() as int,
        );
        lemma_be_bytes_value_injective(s1.drop_last(), s2.drop_last());
        assert(s1 =~= s2) by {
            assert(forall|i: int|
                0 <= i < s1.len() - 1 ==> s1[i] == s1.drop_last()[i] && s2[i] == s2.drop_last()[
                    i
                ]);
        }
    }
}

/// A 256-bit unsigned integer held as 32 big-endian bytes.
#[derive(Clone, Copy, Debug, PartialEq, Eq)]
pub struct U256 {
    pub bytes: [u8; 32],
}

impl U256 {
    /// The integer this 32-byte string denotes.
    pub open spec fn value(self) -> int {
        be_bytes_value(self.bytes@)
    }

    /// True when the value fits in 64 bits, i.e. the upper 24 bytes are zero.
    pub open spec fn fits_u64(self) -> bool {
        self.value() < 0x1_0000_0000_0000_0000
    }

    /// Zero-extends a 64-bit amount into the low-order 8 bytes.
    pub fn from_u64(v: u64) -> (r: U256)
        ensures
            r.value() == v,
            forall|i: int| 0 <= i < 24 ==> r.bytes@[i] == 0,
    {
        let mut bytes = [0u8; 32];
        let mut x = v;
        let mut k: usize = 0;
        proof {
            assert(pow256(0) == 1) by { reveal_with_fuel(pow, 1); }
            assert(bytes@.subrange(32, 32) =~= Seq::<u8>::empty());
        }
        while k < 8
            invariant
                k <= 8,
                bytes@.len() == 32,
                x == v as int / pow256(k as nat),
                be_bytes_value(bytes@.subrange(32 - k, 32)) == v as int % pow256(k as nat),
                forall|i: int| 0 <= i < 32 - k ==> bytes@[i] == 0,
            decreases 8 - k,
        {
            proof {
                lemma_pow_positive(256, k as nat);
            }
            let b = (x % 256) as u8;
            let ghost old_bytes = bytes@;
            let ghost old_x = x;
            bytes[31 - k] = b;
            x = x / 256;
            proof {
                lemma_pow_adds(256, k as nat, 1);
                assert(pow256(1) == 256) by { reveal_with_fuel(pow, 2); }
                lemma_pow_positive(256, (k + 1) as nat);
                // value of the newly written window is one more base-256 digit of v
                let lo = old_bytes.subrange(32 - k, 32);
                let lo2 = bytes@.subrange(31 - k, 32);
                assert(lo2 =~= seq![b].add(lo));
                lemma_be_bytes_value_append(seq![b], lo);
                assert(be_bytes_value(seq![b]) == b) by {
                    reveal_with_fuel(be_bytes_value, 2);
                    assert(seq![b].drop_last() =~= Seq::<u8>::empty());
                }
                lemma_mod_breakdown(v as int, pow256(k as nat), 256);
                assert(pow256(k as nat) * 256 == pow256((k + 1) as nat));
                let d = v as int / pow256(k as nat);
                assert(be_bytes_value(lo2) == v as int % pow256((k + 1) as nat)) by {
                    assert(be_bytes_value(lo2) == b * pow256(k as nat) + be_bytes_value(lo));
                    assert(b == d % 256);
                    assert(b * pow256(k as nat) == pow256(k as nat) * (d % 256))
                        by (nonlinear_arith)
                        requires
                            b == d % 256,
                    ;
                }
                // dividing one more time steps to the next weight
                lemma_div_denominator(v as int, pow256(k as nat), 256);
                assert(x == v as int / pow256((k + 1) as nat));
            }
            k = k + 1;
        }
        proof {
            lemma_pow256_values();
            let hi = bytes@.subrange(0, 24);
            let lo = bytes@.subrange(24, 32);
            assert(bytes@ =~= hi + lo);
            lemma_be_bytes_value_append(hi, lo);
            lemma_be_bytes_value_zero(hi);
            assert(be_bytes_value(hi) == 0);
            assert(v as int % pow256(8) == v);
        }
        U256 { bytes }
    }

    /// Reads the low-order 8 bytes back as a 64-bit amount; the upper
    /// 24 bytes are silently ignored. Prefer [`Self::checked_to_u64`] at
    /// trust boundaries.
    pub fn to_u64(&self) -> (r: u64)
        ensures
            r == be_bytes_value(self.bytes@.subrange(24, 32)),
    {
        let mut r: u64 = 0;
        let mut k: usize = 24;
        proof {
            lemma_pow256_values();
            assert(self.bytes@.subrange(24, 24) =~= Seq::<u8>::empty());
        }
        while k < 32
            invariant
                24 <= k <= 32,
                self.bytes@.len() == 32,
                r == be_bytes_value(self.bytes@.subrange(24, k as int)),
                r < pow256((k - 24) as nat),
                pow256(8) == 0x1_0000_0000_0000_0000,
            decreases 32 - k,
        {
            proof {
                lemma_pow256_values();
                let pre = self.bytes@.subrange(24, k as int);
                let ext = self.bytes@.subrange(24, k + 1);
                assert(ext.drop_last() =~= pre);
                assert(ext.last() == self.bytes@[k as int]);
                lemma_pow_adds(256, (k - 24) as nat, 1);
                assert(pow256(1) == 256) by { reveal_with_fuel(pow, 2); }
                assert(r * 256 + self.bytes@[k as int] < pow256((k - 24) as nat) * 256)
                    by (nonlinear_arith)
                    requires
                        r < pow256((k - 24) as nat),
                        self.bytes@[k as int] < 256,
                ;
                assert(pow256((k - 24) as nat) * 256 == pow256((k + 1 - 24) as nat));
                assert(pow256((k + 1 - 24) as nat) <= pow256(8)) by {
                    vstd::arithmetic::power::lemma_pow_increases(256, (k + 1 - 24) as nat, 8);
                }
            }
            r = r * 256 + (self.bytes[k] as u64);
            k = k + 1;
        }
        proof {
            assert(self.bytes@.subrange(24, 32) =~= self.bytes@.subrange(24, 32));
        }
        r
    }

    /// Checked narrowing: `Some` exactly when the upper 24 bytes are zero,
    /// so nothing is silently discarded at a trust boundary.
    pub fn checked_to_u64(&self) -> (r: Option<u64>)
        ensures
            r is Some <==> self.fits_u64(),
            r matches Some(v) ==> v == self.value(),
    {
        let ghost hi = self.bytes@.subrange(0, 24);
        let ghost lo = self.bytes@.subrange(24, 32);
        proof {
            lemma_pow256_values();
            assert(self.bytes@ =~= hi + lo);
            lemma_be_bytes_value_append(hi, lo);
            lemma_be_bytes_value_bound(hi);
            lemma_be_bytes_value_bound(lo);
            lemma_be_bytes_value_zero(hi);
        }
        let mut k: usize = 0;
        while k < 24
            invariant
                k <= 24,
                self.bytes@.len() == 32,
                forall|i: int| 0 <= i < k ==> self.bytes@[i] == 0,
            decreases 24 - k,
        {
            if self.bytes[k] != 0 {
                proof {
                    let hi2 = self.bytes@.subrange(0, 24);
                    let lo2 = self.bytes@.subrange(24, 32);
                    lemma_pow256_values();
                    assert(self.bytes@ =~= hi2 + lo2);
                    lemma_be_bytes_value_append(hi2, lo2);
                    lemma_be_bytes_value_bound(hi2);
                    lemma_be_bytes_value_bound(lo2);
                    lemma_be_bytes_value_zero(hi2);
                    assert(self.bytes@[k as int] != 0);
                    assert(hi2[k as int] == self.bytes@[k as int]);
                    assert(be_bytes_value(hi2) != 0);
                    assert(be_bytes_value(hi2) * pow256(8) >= pow256(8)) by (nonlinear_arith)
                        requires
                            be_bytes_value(hi2) >= 1,
                            pow256(8) > 0,
                    ;
                }
                return None;
            }
            k = k + 1;
        }
        proof {
            assert(be_bytes_value(hi) == 0);
        }
        Some(self.to_u64())
    }

    /// True when the two 256-bit values are byte-for-byte equal.
    pub fn eq_bytes(&self, other: &U256) -> (r: bool)
        ensures
            r <==> self.bytes@ == other.bytes@,
    {
        let mut k: usize = 0;
        while k < 32
            invariant
                k <= 32,
                forall|i: int| 0 <= i < k ==> self.bytes@[i] == other.bytes@[i],
            decreases 32 - k,
        {
            if self.bytes[k] != other.bytes[k] {
                return false;
            }
            k = k + 1;
        }
        proof {
            assert(self.bytes@ =~= other.bytes@);
        }
        true
    }
}

} // verus!
