//! Double-precision numbers carried as IEEE 754 bit patterns.
//!
//! The service never computes with the numbers it passes along; it only needs
//! to tell which of them a sampler accepts and to write down the pattern of a
//! small integer. Both are questions about the three fields of the pattern.

use vstd::arithmetic::power2::{
    lemma2_to64, lemma2_to64_rest, lemma_pow2_adds, lemma_pow2_pos, lemma_pow2_unfold, pow2,
};
use vstd::prelude::*;

verus! {

/// The bit that holds the sign.
pub const SIGN_BIT: u64 = 0x8000_0000_0000_0000;

/// Two to the power 52: the number of patterns that share one sign and exponent.
pub const FRACTION_SPAN: u64 = 0x0010_0000_0000_0000;

/// The exponent field of the numbers in `[1, 2)`.
pub const EXPONENT_BIAS: u64 = 1023;

/// The pattern of positive infinity.
pub const INFINITY_BITS: u64 = 0x7FF0_0000_0000_0000;

/// The pattern of `1.0`.
pub const ONE_BITS: u64 = 0x3FF0_0000_0000_0000;

/// A double-precision number, held as its bit pattern.
///
/// `==` compares patterns: it tells `0.0` from `-0.0` and finds a NaN equal to
/// itself.
#[derive(Clone, Copy, Debug, PartialEq, Eq, Structural)]
pub struct Double {
    pub bits: u64,
}

impl Double {
    /// The sign bit is set.
    pub open spec fn negative(self) -> bool {
        self.bits >= SIGN_BIT
    }

    /// The eleven-bit exponent field.
    pub open spec fn exponent(self) -> int {
        (self.bits as int / FRACTION_SPAN as int) % 2048
    }

    /// The fifty-two-bit fraction field.
    pub open spec fn fraction(self) -> int {
        self.bits as int % FRACTION_SPAN as int
    }

    /// The pattern is not a number.
    pub open spec fn nan(self) -> bool {
        self.exponent() == 2047 && self.fraction() != 0
    }

    /// The pattern is a number that is not infinite: neither a NaN nor an
    /// infinity of either sign.
    pub open spec fn finite(self) -> bool {
        self.exponent() != 2047
    }

    /// The pattern is `0.0` or `-0.0`.
    pub open spec fn zero(self) -> bool {
        self.exponent() == 0 && self.fraction() == 0
    }

    /// The number compares `>= 0.0`: it is a zero of either sign, or positive,
    /// infinity included. False of every NaN.
    pub open spec fn at_least_zero(self) -> bool {
        !self.nan() && (self.zero() || !self.negative())
    }

    /// The number compares `<= 1.0`: it is negative, or a zero, or its
    /// magnitude is below one, or it is one itself. False of every NaN.
    pub open spec fn at_most_one(self) -> bool {
        !self.nan() && (self.negative() || self.exponent() < EXPONENT_BIAS || (self.exponent()
            == EXPONENT_BIAS && self.fraction() == 0))
    }

    /// The number lies in the closed interval from zero to one.
    pub open spec fn within_unit(self) -> bool {
        self.at_least_zero() && self.at_most_one()
    }

    /// The pattern is the one that the integer `n` has as a double.
    ///
    /// Zero is `0.0`. Any other `n` is `m * 2^k` with `m` the 53-bit
    /// significand `2^52 + fraction` and `k` the exponent field less 1075;
    /// for a whole number of magnitude below `2^53`, `k` is not positive, so
    /// that `m == |n| * 2^(-k)`.
    pub open spec fn represents(self, n: int) -> bool {
        if n == 0 {
            self.bits == 0
        } else {
            &&& self.negative() == (n < 0)
            &&& EXPONENT_BIAS <= self.exponent() <= 1075
            &&& FRACTION_SPAN + self.fraction() == (if n < 0 {
                -n
            } else {
                n
            }) * pow2((1075 - self.exponent()) as nat)
        }
    }

    /// Whether the pattern is a number that is not infinite.
    pub fn is_finite(&self) -> (r: bool)
        ensures
            r == self.finite(),
    {
        let magnitude: u64 = if self.bits >= SIGN_BIT {
            self.bits - SIGN_BIT
        } else {
            self.bits
        };
        magnitude < INFINITY_BITS
    }

    /// Whether the number compares `>= 0.0`.
    pub fn is_at_least_zero(&self) -> (r: bool)
        ensures
            r == self.at_least_zero(),
    {
        self.bits <= INFINITY_BITS || self.bits == SIGN_BIT
    }

    /// Whether the number lies in the closed interval from zero to one.
    pub fn is_within_unit(&self) -> (r: bool)
        ensures
            r == self.within_unit(),
    {
        self.bits <= ONE_BITS || self.bits == SIGN_BIT
    }

    /// The double that a 32-bit integer widens to. Every such integer has one,
    /// exactly.
    pub fn from_i32(n: i32) -> (r: Double)
        ensures
            r.represents(n as int),
    {
        if n == 0 {
            return Double { bits: 0 };
        }
        let sign: u64 = if n < 0 {
            SIGN_BIT
        } else {
            0
        };
        let magnitude: u64 = if n < 0 {
            (-(n as i64)) as u64
        } else {
            n as u64
        };
        let mut significand: u64 = magnitude;
        let mut exponent: u64 = 1075;
        proof {
            lemma2_to64();
            assert(magnitude * pow2(0) == magnitude);
        }
        while significand < FRACTION_SPAN
            invariant
                1 <= magnitude <= 0x8000_0000,
                EXPONENT_BIAS <= exponent <= 1075,
                significand == magnitude * pow2((1075 - exponent) as nat),
                significand < 2 * FRACTION_SPAN,
                pow2((1075 - exponent) as nat) <= FRACTION_SPAN,
                exponent == EXPONENT_BIAS ==> pow2((1075 - exponent) as nat) == FRACTION_SPAN,
            decreases exponent,
        {
            proof {
                let k = (1075 - exponent) as nat;
                lemma_pow2_unfold(k + 1);
                lemma2_to64_rest();
                assert(magnitude * (2 * pow2(k)) == 2 * (magnitude * pow2(k))) by (nonlinear_arith);
                assert(magnitude * pow2(k) >= pow2(k)) by (nonlinear_arith)
                    requires
                        magnitude >= 1,
                ;
                pow2_below_span(k + 1);
            }
            significand = significand * 2;
            exponent = exponent - 1;
        }
        Double { bits: sign + exponent * FRACTION_SPAN + (significand - FRACTION_SPAN) }
    }

    /// `ONE_BITS` is the pattern of the integer one.
    pub proof fn lemma_one()
        ensures
            (Double { bits: ONE_BITS }).represents(1),
    {
        lemma2_to64_rest();
    }

    /// An integer has one pattern and no other.
    pub proof fn lemma_one_pattern(a: Double, b: Double, n: int)
        requires
            a.represents(n),
            b.represents(n),
        ensures
            a == b,
    {
        if n != 0 {
            let m = if n < 0 {
                -n
            } else {
                n
            };
            let ka = (1075 - a.exponent()) as nat;
            let kb = (1075 - b.exponent()) as nat;
            if ka < kb {
                significand_grows(m, ka, kb);
            }
            if kb < ka {
                significand_grows(m, kb, ka);
            }
            assert(a.exponent() == b.exponent());
            assert(a.fraction() == b.fraction());
        }
    }

    /// A pattern is that of one integer at most.
    pub proof fn lemma_one_integer(a: Double, n: int, m: int)
        requires
            a.represents(n),
            a.represents(m),
        ensures
            n == m,
    {
        if n != 0 && m != 0 {
            let k = (1075 - a.exponent()) as nat;
            let x = if n < 0 {
                -n
            } else {
                n
            };
            let y = if m < 0 {
                -m
            } else {
                m
            };
            lemma_pow2_pos(k);
            assert(x == y) by (nonlinear_arith)
                requires
                    x * pow2(k) == y * pow2(k),
                    pow2(k) > 0,
            ;
        }
    }
}

/// With a larger shift the same magnitude makes a significand at least twice
/// as large.
proof fn significand_grows(m: int, small: nat, large: nat)
    requires
        m > 0,
        small < large,
    ensures
        m * pow2(large) >= 2 * (m * pow2(small)),
{
    let rest = (large - small - 1) as nat;
    lemma_pow2_adds(small + 1, rest);
    lemma_pow2_unfold(small + 1);
    lemma_pow2_pos(rest);
    lemma_pow2_pos(small);
    assert(pow2(large) >= 2 * pow2(small)) by (nonlinear_arith)
        requires
            pow2(large) == 2 * pow2(small) * pow2(rest),
            pow2(rest) >= 1,
            pow2(small) >= 1,
    ;
    assert(m * pow2(large) >= 2 * (m * pow2(small))) by (nonlinear_arith)
        requires
            pow2(large) >= 2 * pow2(small),
            m > 0,
    ;
}

/// Powers of two up to the fifty-second stay within the fraction span, and only
/// the fifty-second reaches it.
proof fn pow2_below_span(k: nat)
    requires
        k <= 52,
    ensures
        pow2(k) <= FRACTION_SPAN,
        k == 52 ==> pow2(k) == FRACTION_SPAN,
        k < 52 ==> 2 * pow2(k) <= FRACTION_SPAN,
    decreases 52 - k,
{
    lemma2_to64_rest();
    if k < 52 {
        pow2_below_span(k + 1);
        lemma_pow2_unfold(k + 1);
    }
}

} // verus!
