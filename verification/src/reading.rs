//! Measured quantities as IEEE 754 binary64 patterns.
//!
//! A reading is held by its bit pattern and compared by the value that the
//! pattern stands for, so thresholds, maxima and equality are decided here; only
//! sums and quotients of readings are left to floating-point hardware.
use vstd::arithmetic::power2::pow2;
use vstd::prelude::*;

verus! {

/// The sign bit.
pub const SIGN_BIT: u64 = 0x8000_0000_0000_0000;

/// The pattern of positive infinity; every larger magnitude is not a number.
pub const INFINITY_PATTERN: u64 = 0x7ff0_0000_0000_0000;

/// The least fraction that no longer fits below the exponent: two to the 52nd.
pub const FRACTION_LIMIT: u64 = 0x0010_0000_0000_0000;

/// A measured quantity, held as its binary64 bit pattern.
#[derive(Clone, Copy, Debug)]
pub struct Reading {
    /// The bit pattern.
    pub bits: u64,
}

/// The pattern without its sign.
pub open spec fn magnitude(bits: u64) -> nat {
    if bits >= SIGN_BIT { (bits - SIGN_BIT) as nat } else { bits as nat }
}

/// The absolute value that a magnitude stands for, counted in units of two to
/// the minus 1074th, the least positive binary64 value. Infinity is counted as
/// the value one step beyond the largest finite one.
pub open spec fn units(magnitude: nat) -> nat {
    let exponent = magnitude / FRACTION_LIMIT as nat;
    let fraction = magnitude % FRACTION_LIMIT as nat;
    if exponent == 0 {
        fraction
    } else {
        (FRACTION_LIMIT as nat + fraction) * pow2((exponent - 1) as nat)
    }
}

impl Reading {
    /// Whether the pattern is not a number.
    pub open spec fn nan(self) -> bool {
        magnitude(self.bits) > INFINITY_PATTERN
    }

    /// Whether the pattern stands for a finite number.
    pub open spec fn finite(self) -> bool {
        magnitude(self.bits) < INFINITY_PATTERN
    }

    /// The number that the pattern stands for, in units of two to the minus
    /// 1074th.
    pub open spec fn value(self) -> int {
        if self.bits >= SIGN_BIT { -(units(magnitude(self.bits)) as int) } else { units(magnitude(self.bits)) as int }
    }

    /// Whether this number is greater than the other; false of anything that is
    /// not a number.
    pub open spec fn above(self, other: Reading) -> bool {
        !self.nan() && !other.nan() && self.value() > other.value()
    }

    /// Whether this number is at least the other; false of anything that is not
    /// a number.
    pub open spec fn at_least(self, other: Reading) -> bool {
        !self.nan() && !other.nan() && self.value() >= other.value()
    }

    /// Whether the two are equal numbers; false of anything that is not a
    /// number.
    pub open spec fn equals(self, other: Reading) -> bool {
        !self.nan() && !other.nan() && self.value() == other.value()
    }
}

/// A larger magnitude stands for a larger number.
proof fn lemma_units_grow(a: nat, b: nat)
    requires
        a < b,
    ensures
        units(a) < units(b),
{
    let limit = FRACTION_LIMIT as nat;
    let (ea, eb) = (a / limit, b / limit);
    let (fa, fb) = (a % limit, b % limit);
    assert(a == ea * limit + fa && b == eb * limit + fb && fa < limit && fb < limit) by (nonlinear_arith)
        requires
            limit > 0,
            ea == a / limit,
            eb == b / limit,
            fa == a % limit,
            fb == b % limit,
    ;
    assert(ea <= eb) by (nonlinear_arith)
        requires
            a < b,
            limit > 0,
            ea == a / limit,
            eb == b / limit,
    ;
    if ea == eb {
        assert(fa < fb);
        if ea > 0 {
            let p = pow2((ea - 1) as nat);
            vstd::arithmetic::power2::lemma_pow2_pos((ea - 1) as nat);
            assert((limit + fa) * p < (limit + fb) * p) by (nonlinear_arith)
                requires
                    fa < fb,
                    p > 0,
            ;
        }
    } else {
        let p = pow2((eb - 1) as nat);
        vstd::arithmetic::power2::lemma_pow2_pos((eb - 1) as nat);
        assert((limit + fb) * p >= limit * p) by (nonlinear_arith)
            requires
                p > 0,
        ;
        assert(limit * p >= limit) by (nonlinear_arith)
            requires
                p >= 1,
        ;
        if ea > 0 {
            let q = pow2((ea - 1) as nat);
            vstd::arithmetic::power2::lemma_pow2_pos((ea - 1) as nat);
            vstd::arithmetic::power2::lemma_pow2_unfold(ea);
            if ea < eb - 1 {
                vstd::arithmetic::power2::lemma_pow2_strictly_increases(ea, (eb - 1) as nat);
            }
            assert(p >= 2 * q);
            assert((limit + fa) * q < limit * p) by (nonlinear_arith)
                requires
                    fa < limit,
                    q > 0,
                    p >= 2 * q,
            ;
        }
    }
}

/// Magnitudes are ordered as the numbers they stand for.
proof fn lemma_units_order(a: nat, b: nat)
    ensures
        a < b <==> units(a) < units(b),
        a == b <==> units(a) == units(b),
        units(a) == 0 <==> a == 0,
{
    assert(units(0) == 0);
    if a < b {
        lemma_units_grow(a, b);
    }
    if b < a {
        lemma_units_grow(b, a);
    }
    if a > 0 {
        lemma_units_grow(0, a);
    }
}

impl Reading {
    /// Whether the pattern stands for a finite number.
    pub fn is_finite(self) -> (yes: bool)
        ensures
            yes == self.finite(),
    {
        let magnitude: u64 = if self.bits >= SIGN_BIT { self.bits - SIGN_BIT } else { self.bits };
        magnitude < INFINITY_PATTERN
    }

    /// Whether the pattern is not a number.
    pub fn is_nan(self) -> (yes: bool)
        ensures
            yes == self.nan(),
    {
        let magnitude: u64 = if self.bits >= SIGN_BIT { self.bits - SIGN_BIT } else { self.bits };
        magnitude > INFINITY_PATTERN
    }

    /// Whether this number is greater than the other.
    pub fn exceeds(self, other: Reading) -> (yes: bool)
        ensures
            yes == self.above(other),
    {
        proof {
            lemma_units_order(magnitude(self.bits), magnitude(other.bits));
            lemma_units_order(magnitude(other.bits), magnitude(self.bits));
        }
        if self.is_nan() || other.is_nan() {
            false
        } else if self.bits >= SIGN_BIT {
            other.bits >= SIGN_BIT && self.bits < other.bits
        } else if other.bits >= SIGN_BIT {
            self.bits > 0 || other.bits > SIGN_BIT
        } else {
            self.bits > other.bits
        }
    }

    /// Whether this number is at least the other.
    pub fn reaches(self, other: Reading) -> (yes: bool)
        ensures
            yes == self.at_least(other),
    {
        !self.is_nan() && !other.is_nan() && !other.exceeds(self)
    }

    /// Whether the two are equal numbers.
    pub fn same(self, other: Reading) -> (yes: bool)
        ensures
            yes == self.equals(other),
    {
        proof {
            lemma_units_order(magnitude(self.bits), magnitude(other.bits));
            lemma_units_order(magnitude(other.bits), magnitude(self.bits));
        }
        if self.is_nan() || other.is_nan() {
            false
        } else {
            self.bits == other.bits || (self.bits == 0 && other.bits == SIGN_BIT) || (self.bits == SIGN_BIT
                && other.bits == 0)
        }
    }
}

/// The units in one half: two to the 1073rd.
pub open spec fn half() -> nat {
    pow2(1073)
}

/// The pattern of a normalized fraction stands for that fraction scaled.
proof fn lemma_normal_units(exponent: nat, fraction: nat)
    requires
        exponent >= 1,
        fraction < FRACTION_LIMIT,
    ensures
        units(exponent * FRACTION_LIMIT as nat + fraction) == (FRACTION_LIMIT as nat + fraction) * pow2(
            (exponent - 1) as nat,
        ),
{
    let limit = FRACTION_LIMIT as nat;
    let all = exponent * limit + fraction;
    assert(all / limit == exponent && all % limit == fraction) by (nonlinear_arith)
        requires
            all == exponent * limit + fraction,
            fraction < limit,
            limit > 0,
    ;
}

impl Reading {
    /// The number `n / 2`, exactly.
    pub fn from_halves(n: u64) -> (reading: Reading)
        requires
            n < 2 * FRACTION_LIMIT,
        ensures
            reading.finite(),
            reading.bits < SIGN_BIT,
            reading.value() == n * half(),
    {
        if n == 0 {
            assert(units(0) == 0);
            return Reading { bits: 0 };
        }
        let mut fraction: u64 = n;
        let mut exponent: u64 = 1074;
        proof {
            vstd::arithmetic::power2::lemma2_to64();
        }
        while fraction < FRACTION_LIMIT
            invariant
                0 < fraction < 2 * FRACTION_LIMIT,
                fraction * pow2((exponent - 1) as nat) == n * half(),
                1022 <= exponent <= 1074,
                fraction >= pow2((1074 - exponent) as nat),
            decreases exponent,
        {
            proof {
                vstd::arithmetic::power2::lemma2_to64_rest();
                assert(exponent > 1022);
                vstd::arithmetic::power2::lemma_pow2_unfold((exponent - 1) as nat);
                vstd::arithmetic::power2::lemma_pow2_unfold((1075 - exponent) as nat);
                let p = pow2((exponent - 2) as nat);
                assert((fraction * 2) * p == fraction * (2 * p)) by (nonlinear_arith);
            }
            fraction = fraction * 2;
            exponent = exponent - 1;
        }
        let bits: u64 = exponent * FRACTION_LIMIT + (fraction - FRACTION_LIMIT);
        proof {
            lemma_normal_units(exponent as nat, (fraction - FRACTION_LIMIT) as nat);
        }
        Reading { bits }
    }
}

impl Reading {
    /// Zero.
    pub fn zero() -> (reading: Reading)
        ensures
            reading == (Reading { bits: 0 }),
            reading.finite(),
            reading.value() == 0,
    {
        assert(units(0) == 0);
        Reading { bits: 0 }
    }

    /// The whole number `n`, exactly.
    pub fn whole(n: u64) -> (reading: Reading)
        requires
            n < FRACTION_LIMIT,
        ensures
            reading.finite(),
            reading.bits < SIGN_BIT,
            reading.value() == (2 * n) * half(),
    {
        Reading::from_halves(2 * n)
    }
}

/// A number has one pattern without a sign.
pub proof fn unsigned_patterns_are_unique(a: Reading, b: Reading)
    requires
        a.bits < SIGN_BIT,
        b.bits < SIGN_BIT,
        a.value() == b.value(),
    ensures
        a == b,
{
    lemma_units_order(magnitude(a.bits), magnitude(b.bits));
}

/// Larger counts of halves are larger numbers.
pub proof fn halves_keep_their_order(a: nat, b: nat)
    ensures
        a < b <==> a * half() < b * half(),
        a == b <==> a * half() == b * half(),
{
    vstd::arithmetic::power2::lemma_pow2_pos(1073);
    let h = half();
    assert((a < b <==> a * h < b * h) && (a == b <==> a * h == b * h)) by (nonlinear_arith)
        requires
            h > 0,
    ;
}

/// Readings that are numbers are ordered, and two of them compare in exactly one
/// way; with anything that is not a number every comparison is false.
pub proof fn readings_are_ordered(a: Reading, b: Reading, c: Reading)
    ensures
        !a.nan() && !b.nan() ==> (a.above(b) || b.above(a) || a.equals(b)),
        !(a.above(b) && b.above(a)) && !(a.above(b) && a.equals(b)),
        a.at_least(b) <==> a.above(b) || a.equals(b),
        a.above(b) && b.above(c) ==> a.above(c),
        a.above(b) && b.at_least(c) ==> a.above(c),
        a.equals(b) <==> b.equals(a),
        a.equals(a) <==> !a.nan(),
        a.nan() || b.nan() ==> !a.above(b) && !a.at_least(b) && !a.equals(b),
{
}

/// Which patterns are numbers: without the sign bit those up to the pattern of
/// infinity, and with it the same ones again.
pub proof fn a_pattern_is_a_number_up_to_infinity(bits: u64)
    ensures
        (Reading { bits }).nan() <==> 0x7ff0_0000_0000_0000 < bits < 0x8000_0000_0000_0000 || bits
            > 0xfff0_0000_0000_0000,
        (Reading { bits }).finite() <==> bits < 0x7ff0_0000_0000_0000 || 0x8000_0000_0000_0000 <= bits
            < 0xfff0_0000_0000_0000,
{
}

/// Among patterns without a sign the larger pattern is the larger number, a sign
/// turns a number into its opposite, the pattern of zero is zero, and the two
/// zeros are equal.
pub proof fn patterns_are_ordered_as_their_numbers(a: u64, b: u64)
    requires
        a < 0x8000_0000_0000_0000,
        b < 0x8000_0000_0000_0000,
    ensures
        a < b <==> (Reading { bits: a }).value() < (Reading { bits: b }).value(),
        (Reading { bits: a }).value() >= 0,
        (Reading { bits: a }).value() == 0 <==> a == 0,
        (Reading { bits: (a + 0x8000_0000_0000_0000) as u64 }).value() == -(Reading { bits: a }).value(),
        (Reading { bits: 0 }).equals(Reading { bits: 0x8000_0000_0000_0000 }),
{
    lemma_units_order(magnitude(a), magnitude(b));
    lemma_units_order(magnitude(b), magnitude(a));
    lemma_units_order(0, 0);
}

/// The next exponent stands for twice the number, below the first exponent
/// patterns count up one by one, and the pattern of one is the whole number one.
pub proof fn an_exponent_doubles_a_number(bits: u64)
    ensures
        bits < 0x0010_0000_0000_0000 ==> (Reading { bits }).value() == bits,
        0x0010_0000_0000_0000 <= bits < 0x7ff0_0000_0000_0000 ==> (Reading {
            bits: (bits + 0x0010_0000_0000_0000) as u64,
        }).value() == 2 * (Reading { bits }).value(),
        (Reading { bits: 0x0010_0000_0000_0000 }).value() == 0x0010_0000_0000_0000,
        (Reading { bits: 0x3ff0_0000_0000_0000 }).value() == 2 * half(),
{
    let limit = FRACTION_LIMIT as nat;
    let m = bits as nat;
    if bits < 0x0010_0000_0000_0000 {
        assert(m / limit == 0 && m % limit == m);
    }
    if 0x0010_0000_0000_0000 <= bits < 0x7ff0_0000_0000_0000 {
        let exponent = m / limit;
        let fraction = m % limit;
        assert(exponent >= 1 && m == exponent * limit + fraction && fraction < limit) by (nonlinear_arith)
            requires
                limit == 0x0010_0000_0000_0000,
                m >= limit,
                exponent == m / limit,
                fraction == m % limit,
        ;
        assert(m + limit == (exponent + 1) * limit + fraction) by (nonlinear_arith)
            requires
                m == exponent * limit + fraction,
        ;
        lemma_normal_units(exponent, fraction);
        lemma_normal_units(exponent + 1, fraction);
        vstd::arithmetic::power2::lemma_pow2_unfold(exponent);
        let p = pow2((exponent - 1) as nat);
        assert((limit + fraction) * (2 * p) == 2 * ((limit + fraction) * p)) by (nonlinear_arith);
    }
    lemma_normal_units(1, 0);
    vstd::arithmetic::power2::lemma2_to64();
    lemma_normal_units(1023, 0);
    assert(limit == pow2(52)) by {
        vstd::arithmetic::power2::lemma2_to64_rest();
    }
    vstd::arithmetic::power2::lemma_pow2_adds(52, 1022);
    vstd::arithmetic::power2::lemma_pow2_unfold(1074);
}

} // verus!
