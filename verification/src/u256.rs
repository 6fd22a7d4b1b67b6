//! Unsigned 256-bit integers, held as four 64-bit limbs.
//!
//! Native-currency amounts, random words and request identifiers are all
//! unsigned 256-bit values. The type carries exactly the operations the
//! lottery needs: construction, comparison, checked addition for the pool,
//! and reduction modulo a small count for winner selection.

use vstd::prelude::*;
use vstd::arithmetic::div_mod::*;

verus! {

/// An unsigned 256-bit integer as four 64-bit limbs, least significant first.
#[derive(Clone, Copy, PartialEq, Eq, Structural, Debug, Hash)]
pub struct U256 {
    /// Bits 0..64.
    pub l0: u64,
    /// Bits 64..128.
    pub l1: u64,
    /// Bits 128..192.
    pub l2: u64,
    /// Bits 192..256.
    pub l3: u64,
}

/// 2^64.
pub open spec fn p64() -> int {
    0x1_0000_0000_0000_0000
}

/// 2^128.
pub open spec fn p128() -> int {
    0x1_0000_0000_0000_0000_0000_0000_0000_0000int
}

/// 2^192.
pub open spec fn p192() -> int {
    0x1_0000_0000_0000_0000_0000_0000_0000_0000_0000_0000_0000_0000int
}

/// 2^256, one past the largest representable value.
pub open spec fn p256() -> int {
    0x1_0000_0000_0000_0000_0000_0000_0000_0000_0000_0000_0000_0000_0000_0000_0000_0000int
}

impl U256 {
    /// The value as one mathematical integer.
    pub open spec fn as_int(self) -> int {
        self.l0 + self.l1 * p64() + self.l2 * p128() + self.l3 * p192()
    }

    /// Every value is nonnegative and below 2^256.
    pub proof fn lemma_range(self)
        ensures
            0 <= self.as_int() < p256(),
    {
        assert(self.l1 * p64() <= 0xffff_ffff_ffff_ffff * p64());
        assert(self.l2 * p128() <= 0xffff_ffff_ffff_ffff * p128());
        assert(self.l3 * p192() <= 0xffff_ffff_ffff_ffff * p192());
        assert(self.l1 * p64() >= 0);
        assert(self.l2 * p128() >= 0);
        assert(self.l3 * p192() >= 0);
    }

    /// Builds the zero value.
    pub fn zero() -> (r: U256)
        ensures
            r.as_int() == 0,
            r == (U256 { l0: 0, l1: 0, l2: 0, l3: 0 }),
    {
        U256 { l0: 0, l1: 0, l2: 0, l3: 0 }
    }

    /// Embeds a 64-bit value.
    pub fn from_u64(x: u64) -> (r: U256)
        ensures
            r.as_int() == x,
    {
        U256 { l0: x, l1: 0, l2: 0, l3: 0 }
    }

    /// Embeds a 128-bit value.
    pub fn from_u128(x: u128) -> (r: U256)
        ensures
            r.as_int() == x,
    {
        let lo = (x % 0x1_0000_0000_0000_0000u128) as u64;
        let hi = (x / 0x1_0000_0000_0000_0000u128) as u64;
        proof {
            lemma_fundamental_div_mod(x as int, p64());
        }
        U256 { l0: lo, l1: hi, l2: 0, l3: 0 }
    }

    /// Builds a value from its four limbs, least significant first.
    pub fn from_limbs(l0: u64, l1: u64, l2: u64, l3: u64) -> (r: U256)
        ensures
            r == (U256 { l0, l1, l2, l3 }),
            r.as_int() == l0 + l1 * p64() + l2 * p128() + l3 * p192(),
    {
        U256 { l0, l1, l2, l3 }
    }

    /// Whether the value is zero.
    pub fn is_zero(self) -> (r: bool)
        ensures
            r <==> self.as_int() == 0,
    {
        proof {
            self.lemma_range();
            if self.l1 != 0 || self.l2 != 0 || self.l3 != 0 {
                assert(self.l1 * p64() >= 0);
                assert(self.l2 * p128() >= 0);
                assert(self.l3 * p192() >= 0);
                if self.l1 != 0 {
                    assert(self.l1 * p64() >= p64());
                }
                if self.l2 != 0 {
                    assert(self.l2 * p128() >= p128());
                }
                if self.l3 != 0 {
                    assert(self.l3 * p192() >= p192());
                }
            }
        }
        self.l0 == 0 && self.l1 == 0 && self.l2 == 0 && self.l3 == 0
    }

    /// Strict comparison of values.
    pub fn lt(self, other: U256) -> (r: bool)
        ensures
            r <==> self.as_int() < other.as_int(),
    {
        proof {
            lemma_prefix_bound(self.l0, self.l1, self.l2);
            lemma_prefix_bound(other.l0, other.l1, other.l2);
            lemma_low_bound(self.l0, self.l1);
            lemma_low_bound(other.l0, other.l1);
        }
        if self.l3 != other.l3 {
            proof {
                if self.l3 < other.l3 {
                    assert(self.l3 * p192() + p192() <= other.l3 * p192()) by {
                        assert((self.l3 + 1) * p192() <= other.l3 * p192());
                    }
                } else {
                    assert(other.l3 * p192() + p192() <= self.l3 * p192()) by {
                        assert((other.l3 + 1) * p192() <= self.l3 * p192());
                    }
                }
            }
            self.l3 < other.l3
        } else if self.l2 != other.l2 {
            proof {
                if self.l2 < other.l2 {
                    assert(self.l2 * p128() + p128() <= other.l2 * p128()) by {
                        assert((self.l2 + 1) * p128() <= other.l2 * p128());
                    }
                } else {
                    assert(other.l2 * p128() + p128() <= self.l2 * p128()) by {
                        assert((other.l2 + 1) * p128() <= self.l2 * p128());
                    }
                }
            }
            self.l2 < other.l2
        } else if self.l1 != other.l1 {
            proof {
                if self.l1 < other.l1 {
                    assert(self.l1 * p64() + p64() <= other.l1 * p64()) by {
                        assert((self.l1 + 1) * p64() <= other.l1 * p64());
                    }
                } else {
                    assert(other.l1 * p64() + p64() <= self.l1 * p64()) by {
                        assert((other.l1 + 1) * p64() <= self.l1 * p64());
                    }
                }
            }
            self.l1 < other.l1
        } else {
            self.l0 < other.l0
        }
    }

    /// Addition of values, or `None` where the sum does not fit 256 bits.
    pub fn checked_add(self, other: U256) -> (r: Option<U256>)
        ensures
            self.as_int() + other.as_int() < p256() ==> (r matches Some(s) && s.as_int()
                == self.as_int() + other.as_int()),
            self.as_int() + other.as_int() >= p256() ==> r is None,
    {
        let (s0, c0) = limb_add(self.l0, other.l0, 0);
        let (s1, c1) = limb_add(self.l1, other.l1, c0);
        let (s2, c2) = limb_add(self.l2, other.l2, c1);
        let (s3, c3) = limb_add(self.l3, other.l3, c2);
        let sum = U256 { l0: s0, l1: s1, l2: s2, l3: s3 };
        proof {
            assert(self.as_int() + other.as_int() == sum.as_int() + c3 * p256()) by {
                assert(self.l0 + other.l0 == s0 + c0 * p64());
                assert(self.l1 + other.l1 + c0 == s1 + c1 * p64());
                assert(self.l2 + other.l2 + c1 == s2 + c2 * p64());
                assert(self.l3 + other.l3 + c2 == s3 + c3 * p64());
            }
            sum.lemma_range();
        }
        if c3 == 0 {
            Some(sum)
        } else {
            None
        }
    }

    /// The value reduced modulo a nonzero 64-bit divisor.
    pub fn mod_u64(self, k: u64) -> (r: u64)
        requires
            k > 0,
        ensures
            r == self.as_int() % (k as int),
            r < k,
    {
        let r3 = self.l3 % k;
        let r2 = fold_mod_step(r3, self.l2, k);
        let r1 = fold_mod_step(r2, self.l1, k);
        let r0 = fold_mod_step(r1, self.l0, k);
        proof {
            let m = k as int;
            let v3 = self.l3 as int;
            let v2 = v3 * p64() + self.l2;
            let v1 = v2 * p64() + self.l1;
            let v0 = v1 * p64() + self.l0;
            assert(v0 == self.as_int());
            assert(r2 == v2 % m) by {
                lemma_step_congruence(v3, self.l2 as int, m);
            }
            assert(r1 == v1 % m) by {
                lemma_step_congruence(v2, self.l1 as int, m);
            }
            assert(r0 == v0 % m) by {
                lemma_step_congruence(v1, self.l0 as int, m);
            }
        }
        r0
    }

    /// The value as a 64-bit integer, or `None` where it does not fit.
    pub fn try_to_u64(self) -> (r: Option<u64>)
        ensures
            self.as_int() < p64() ==> r == Some(self.l0),
            self.as_int() >= p64() ==> r is None,
    {
        proof {
            if self.l1 != 0 {
                assert(self.l1 * p64() >= p64());
            }
            if self.l2 != 0 {
                assert(self.l2 * p128() >= p128());
            }
            if self.l3 != 0 {
                assert(self.l3 * p192() >= p192());
            }
            assert(self.l1 * p64() >= 0);
            assert(self.l2 * p128() >= 0);
            assert(self.l3 * p192() >= 0);
        }
        if self.l1 == 0 && self.l2 == 0 && self.l3 == 0 {
            Some(self.l0)
        } else {
            None
        }
    }
}

/// The low three limbs are below 2^192.
proof fn lemma_prefix_bound(l0: u64, l1: u64, l2: u64)
    ensures
        0 <= l0 + l1 * p64() + l2 * p128() < p192(),
{
    assert(l1 * p64() <= 0xffff_ffff_ffff_ffff * p64());
    assert(l2 * p128() <= 0xffff_ffff_ffff_ffff * p128());
    assert(l1 * p64() >= 0);
    assert(l2 * p128() >= 0);
}

/// The low two limbs are below 2^128.
proof fn lemma_low_bound(l0: u64, l1: u64)
    ensures
        0 <= l0 + l1 * p64() < p128(),
{
    assert(l1 * p64() <= 0xffff_ffff_ffff_ffff * p64());
    assert(l1 * p64() >= 0);
}

/// One limb of a carrying addition: the sum of two limbs and a carry,
/// split into a low limb and the outgoing carry.
fn limb_add(a: u64, b: u64, cin: u64) -> (r: (u64, u64))
    requires
        cin <= 1,
    ensures
        r.1 <= 1,
        a + b + cin == r.0 + r.1 * p64(),
{
    let t: u128 = a as u128 + b as u128 + cin as u128;
    let lo = (t % 0x1_0000_0000_0000_0000u128) as u64;
    let hi = (t / 0x1_0000_0000_0000_0000u128) as u64;
    proof {
        lemma_fundamental_div_mod(t as int, p64());
    }
    (lo, hi)
}

/// One step of Horner-style reduction: folds the next limb into a running
/// remainder that stays below the divisor.
fn fold_mod_step(r: u64, limb: u64, k: u64) -> (res: u64)
    requires
        k > 0,
        r < k,
    ensures
        res == (r * p64() + limb) % (k as int),
        res < k,
{
    proof {
        assert(r * 0x1_0000_0000_0000_0000 <= 0xffff_ffff_ffff_fffe * 0x1_0000_0000_0000_0000);
    }
    let t: u128 = (r as u128) * 0x1_0000_0000_0000_0000u128 + (limb as u128);
    let res = (t % (k as u128)) as u64;
    proof {
        lemma_mod_bound(t as int, k as int);
    }
    res
}

/// Folding a limb onto a remainder preserves congruence: reducing the head
/// before the fold gives the same remainder as reducing afterwards.
proof fn lemma_step_congruence(v: int, limb: int, m: int)
    requires
        m > 0,
    ensures
        ((v % m) * p64() + limb) % m == (v * p64() + limb) % m,
{
    let a = v * p64();
    let b = (v % m) * p64();
    assert(b % m == a % m) by {
        lemma_mul_mod_noop_left(v, p64(), m);
    }
    assert((a + limb) % m == ((a % m) + (limb % m)) % m) by {
        lemma_add_mod_noop(a, limb, m);
    }
    assert((b + limb) % m == ((b % m) + (limb % m)) % m) by {
        lemma_add_mod_noop(b, limb, m);
    }
}

} // verus!
