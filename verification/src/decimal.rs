//! Exact decimal numbers.
//!
//! Prices, quantities and statistical samples are exact decimal values:
//! a signed mantissa together with a power-of-ten scale, so that a value
//! is `mantissa / 10^scale`. Floating point is never used, which keeps
//! comparisons drift-free.

use vstd::prelude::*;

verus! {

/// `10^e` as a mathematical integer.
pub open spec fn pow10(e: nat) -> int
    decreases e,
{
    if e == 0 {
        1
    } else {
        10 * pow10((e - 1) as nat)
    }
}

/// The concrete powers of ten that the bounds in this module lean on.
pub proof fn lemma_pow10_values()
    ensures
        pow10(6) == 1000000,
        pow10(12) == 1000000000000,
        pow10(16) == 10000000000000000,
        pow10(18) == 1000000000000000000,
        pow10(19) == 10000000000000000000,
        pow10(28) == 10000000000000000000000000000,
        pow10(31) == 10000000000000000000000000000000,
        pow10(32) == 100000000000000000000000000000000,
        pow10(37) == 10000000000000000000000000000000000000,
{
    reveal_with_fuel(pow10, 40);
}

pub proof fn lemma_pow10_pos(e: nat)
    ensures
        pow10(e) >= 1,
    decreases e,
{
    if e > 0 {
        lemma_pow10_pos((e - 1) as nat);
    }
}

pub proof fn lemma_pow10_adds(a: nat, b: nat)
    ensures
        pow10(a + b) == pow10(a) * pow10(b),
    decreases a,
{
    if a == 0 {
    } else {
        lemma_pow10_adds((a - 1) as nat, b);
        assert(pow10((a + b - 1) as nat) == pow10((a - 1) as nat) * pow10(b));
        assert(10 * (pow10((a - 1) as nat) * pow10(b)) == (10 * pow10((a - 1) as nat)) * pow10(b))
            by (nonlinear_arith);
    }
}

/// The largest scale a decimal may carry: values are mantissa / 10^scale
/// with scale at most 18.
pub open spec fn scale_limit() -> nat {
    18
}

/// Every well-formed decimal, rescaled to `scale_limit()`, has its
/// scaled mantissa within this bound, so all rescalings fit in an `i128`.
pub open spec fn units_limit() -> int {
    pow10(37)
}

/// An exact decimal number `mantissa / 10^scale`.
#[derive(Clone, Copy, Debug)]
pub struct Decimal {
    mantissa: i128,
    scale: u32,
}

impl Decimal {
    pub closed spec fn mantissa_spec(self) -> int {
        self.mantissa as int
    }

    pub closed spec fn scale_spec(self) -> nat {
        self.scale as nat
    }

    /// The value of the decimal expressed in units of `10^-s`,
    /// meaningful whenever `scale_spec() <= s`.
    pub open spec fn units_at(self, s: nat) -> int {
        self.mantissa_spec() * pow10((s - self.scale_spec()) as nat)
    }

    /// The value in units of `10^-scale_limit()`: the canonical integer
    /// model of a decimal. Two decimals denote the same number exactly
    /// when their `units()` agree, and compare as their `units()` compare.
    pub open spec fn units(self) -> int {
        self.units_at(scale_limit())
    }

    pub open spec fn wf(self) -> bool {
        &&& self.scale_spec() <= scale_limit()
        &&& -units_limit() <= self.units() <= units_limit()
    }

    /// Builds the decimal `mantissa / 10^scale`.
    pub fn new(mantissa: i64, scale: u32) -> (r: Decimal)
        requires
            scale <= scale_limit(),
        ensures
            r.wf(),
            r.mantissa_spec() == mantissa,
            r.scale_spec() == scale,
    {
        let r = Decimal { mantissa: mantissa as i128, scale };
        proof {
            lemma_pow10_pos((scale_limit() - r.scale_spec()) as nat);
            lemma_pow10_adds(19, (scale_limit() - r.scale_spec()) as nat);
            lemma_pow10_values();
            lemma_pow10_mono((scale_limit() - r.scale_spec()) as nat, scale_limit());
            assert(pow10(37) == pow10(19) * pow10(scale_limit())) by {
                lemma_pow10_adds(19, scale_limit());
            }
            assert(-pow10(19) < r.mantissa_spec() < pow10(19));
            lemma_abs_mul_bound(r.mantissa_spec(), pow10((scale_limit() - r.scale_spec()) as nat), pow10(19), pow10(scale_limit()));
        }
        r
    }

    /// Builds the decimal `mantissa / 10^scale` from a wide mantissa;
    /// the mantissa must stay within the bound that keeps every
    /// rescaling of the value inside an `i128`.
    pub fn from_mantissa(mantissa: i128, scale: u32) -> (r: Decimal)
        requires
            scale <= scale_limit(),
            -pow10((19 + scale) as nat) < mantissa < pow10((19 + scale) as nat),
        ensures
            r.wf(),
            r.mantissa_spec() == mantissa,
            r.scale_spec() == scale,
    {
        let r = Decimal { mantissa, scale };
        proof {
            lemma_pow10_pos((scale_limit() - r.scale_spec()) as nat);
            lemma_pow10_adds((19 + scale) as nat, (scale_limit() - r.scale_spec()) as nat);
            lemma_abs_mul_bound(r.mantissa_spec(),
                pow10((scale_limit() - r.scale_spec()) as nat), pow10((19 + scale) as nat),
                pow10((scale_limit() - r.scale_spec()) as nat));
            assert((19 + scale) as nat + (scale_limit() - r.scale_spec()) as nat == 37);
        }
        r
    }

    pub fn mantissa(&self) -> (r: i128)
        ensures
            r == self.mantissa_spec(),
    {
        self.mantissa
    }

    pub fn scale(&self) -> (r: u32)
        ensures
            r == self.scale_spec(),
    {
        self.scale
    }

    /// The value expressed in units of `10^-scale_limit()`, as a machine
    /// integer.
    pub fn units_canonical(&self) -> (r: i128)
        requires
            self.wf(),
        ensures
            r == self.units(),
    {
        proof {
            lemma_pow10_values();
        }
        let p = pow10_i128(18 - self.scale);
        proof {
            lemma_pow10_pos((scale_limit() - self.scale_spec()) as nat);
        }
        self.mantissa * p
    }

    /// The value expressed in units of `10^-s`, for any `s` from the
    /// decimal's own scale up to the scale limit.
    pub fn units_with_scale(&self, s: u32) -> (r: i128)
        requires
            self.wf(),
            self.scale_spec() <= s <= scale_limit(),
        ensures
            r == self.units_at(s as nat),
    {
        let p = pow10_i128(s - self.scale);
        proof {
            lemma_pow10_pos((s - self.scale_spec()) as nat);
            lemma_pow10_pos((scale_limit() - s) as nat);
            lemma_pow10_adds((s - self.scale_spec()) as nat, (scale_limit() - s) as nat);
            assert(self.units() == self.mantissa_spec() * (pow10((s - self.scale_spec()) as nat)
                * pow10((scale_limit() - s) as nat)));
            lemma_units_factor(self.mantissa_spec(), pow10((s - self.scale_spec()) as nat),
                pow10((scale_limit() - s) as nat));
            lemma_pow10_values();
        }
        self.mantissa * p
    }

    /// True exactly when the decimal denotes zero.
    pub fn is_zero(&self) -> (r: bool)
        ensures
            r <==> self.units() == 0,
    {
        proof {
            lemma_pow10_pos((scale_limit() - self.scale_spec()) as nat);
            if self.mantissa_spec() != 0 {
                lemma_mul_nonzero(self.mantissa_spec(), pow10((scale_limit()
                    - self.scale_spec()) as nat));
            }
        }
        self.mantissa == 0
    }

    /// True exactly when `self` denotes a number strictly below `other`.
    pub fn lt(&self, other: &Decimal) -> (r: bool)
        requires
            self.wf(),
            other.wf(),
        ensures
            r <==> self.units() < other.units(),
    {
        self.units_canonical() < other.units_canonical()
    }

    /// True exactly when `self` denotes a number at most `other`.
    pub fn le(&self, other: &Decimal) -> (r: bool)
        requires
            self.wf(),
            other.wf(),
        ensures
            r <==> self.units() <= other.units(),
    {
        self.units_canonical() <= other.units_canonical()
    }

    /// True exactly when the two decimals denote the same number,
    /// regardless of representation: `1.20` equals `1.2`.
    pub fn eq_value(&self, other: &Decimal) -> (r: bool)
        requires
            self.wf(),
            other.wf(),
        ensures
            r <==> self.units() == other.units(),
    {
        self.units_canonical() == other.units_canonical()
    }

    /// True exactly when the decimal denotes a negative number.
    pub fn is_negative(&self) -> (r: bool)
        requires
            self.wf(),
        ensures
            r <==> self.units() < 0,
    {
        proof {
            lemma_pow10_pos((scale_limit() - self.scale_spec()) as nat);
            lemma_mul_sign(self.mantissa_spec(), pow10((scale_limit() - self.scale_spec()) as nat));
        }
        self.mantissa < 0
    }
}

impl Decimal {
    /// The negated value, exactly.
    pub fn neg(&self) -> (r: Decimal)
        requires
            self.wf(),
        ensures
            r.wf(),
            r.units() == -self.units(),
            r.scale_spec() == self.scale_spec(),
    {
        proof {
            lemma_pow10_values();
            lemma_pow10_pos((scale_limit() - self.scale_spec()) as nat);
            lemma_rescaled_bound(self.mantissa_spec(),
                pow10((scale_limit() - self.scale_spec()) as nat), self.units());
            assert((-self.mantissa_spec()) * pow10((scale_limit() - self.scale_spec()) as nat)
                == -self.units()) by (nonlinear_arith)
                requires
                    self.mantissa_spec() * pow10((scale_limit() - self.scale_spec()) as nat)
                        == self.units(),
            ;
        }
        Decimal { mantissa: -self.mantissa, scale: self.scale }
    }

    /// The exact sum, at the finer of the two scales, or `None` when it
    /// falls outside the representable range.
    pub fn checked_add(&self, other: &Decimal) -> (r: Option<Decimal>)
        requires
            self.wf(),
            other.wf(),
        ensures
            r matches Some(d) ==> {
                &&& d.wf()
                &&& d.units() == self.units() + other.units()
            },
            r is None ==> self.units() + other.units() >= units_limit() || self.units()
                + other.units() <= -units_limit(),
    {
        let s = if self.scale >= other.scale { self.scale } else { other.scale };
        let u1 = self.units_with_scale(s);
        let u2 = other.units_with_scale(s);
        proof {
            lemma_pow10_values();
            lemma_pow10_pos((scale_limit() - s) as nat);
            lemma_pow10_adds((s - self.scale_spec()) as nat, (scale_limit() - s) as nat);
            lemma_units_factor(self.mantissa_spec(), pow10((s - self.scale_spec()) as nat),
                pow10((scale_limit() - s) as nat));
            lemma_pow10_adds((s - other.scale_spec()) as nat, (scale_limit() - s) as nat);
            lemma_units_factor(other.mantissa_spec(), pow10((s - other.scale_spec()) as nat),
                pow10((scale_limit() - s) as nat));
            lemma_rescaled_bound(u1 as int, pow10((scale_limit() - s) as nat), self.units());
            lemma_rescaled_bound(u2 as int, pow10((scale_limit() - s) as nat), other.units());
            assert((u1 + u2) * pow10((scale_limit() - s) as nat) == u1 * pow10((scale_limit()
                - s) as nat) + u2 * pow10((scale_limit() - s) as nat)) by (nonlinear_arith);
        }
        let m = u1 + u2;
        let limit = pow10_i128(19 + s);
        proof {
            lemma_pow10_adds((19 + s) as nat, (scale_limit() - s) as nat);
        }
        if -limit < m && m < limit {
            Some(Decimal::from_mantissa(m, s))
        } else {
            proof {
                let p = pow10((scale_limit() - s) as nat);
                assert(self.units() + other.units() == m * p);
                if m >= limit {
                    assert(m * p >= limit * p) by (nonlinear_arith)
                        requires
                            m >= limit,
                            p >= 1,
                    ;
                } else {
                    assert(m * p <= (-limit) * p) by (nonlinear_arith)
                        requires
                            m <= -limit,
                            p >= 1,
                    ;
                    assert((-limit) * p == -(limit * p)) by (nonlinear_arith);
                }
            }
            None
        }
    }

    /// The exact difference, at the finer of the two scales, or `None`
    /// when it falls outside the representable range.
    pub fn checked_sub(&self, other: &Decimal) -> (r: Option<Decimal>)
        requires
            self.wf(),
            other.wf(),
        ensures
            r matches Some(d) ==> {
                &&& d.wf()
                &&& d.units() == self.units() - other.units()
            },
            r is None ==> self.units() - other.units() >= units_limit() || self.units()
                - other.units() <= -units_limit(),
    {
        self.checked_add(&other.neg())
    }

    /// The square root, truncated to six decimal places, or `None` for a
    /// negative number. For a value whose root is exactly representable
    /// with six decimal places (such as `4 -> 2`), the result is exact.
    pub fn sqrt_floor(&self) -> (r: Option<Decimal>)
        requires
            self.wf(),
            self.scale_spec() <= 12,
        ensures
            r is None <==> self.units() < 0,
            r matches Some(d) ==> {
                &&& d.wf()
                &&& d.scale_spec() == 6
                &&& d.mantissa_spec() >= 0
                &&& d.mantissa_spec() * d.mantissa_spec() <= self.units_at(12)
                &&& self.units_at(12) < (d.mantissa_spec() + 1) * (d.mantissa_spec() + 1)
            },
    {
        if self.is_negative() {
            None
        } else {
            let u12 = self.units_with_scale(12);
            proof {
                lemma_pow10_pos(6);
                lemma_pow10_adds((12 - self.scale_spec()) as nat, 6);
                lemma_units_factor(self.mantissa_spec(),
                    pow10((12 - self.scale_spec()) as nat), pow10(6));
                assert(self.units_at(12) * pow10(6) == self.units());
                lemma_mul_sign(self.units_at(12), pow10(6));
            }
            let m = isqrt_u128(u12 as u128);
            proof {
                lemma_pow10_values();
                assert(u12 <= pow10(31));
                lemma_pow10_adds(16, 16);
                lemma_isqrt_bound(m as int, u12 as int, pow10(16));
                lemma_abs_mul_bound(m as int, pow10(12), pow10(16), pow10(12));
                lemma_pow10_adds(16, 12);
                lemma_pow10_mono(28, 37);
            }
            Some(Decimal { mantissa: m as i128, scale: 6 })
        }
    }
}

/// The largest `r` with `r * r <= x`.
fn isqrt_u128(x: u128) -> (r: u128)
    ensures
        r * r <= x,
        x < (r + 1) * (r + 1),
{
    let mut lo: u128 = 0;
    let mut hi: u128 = 0x10000000000000000;
    proof {
        assert(x < 0x10000000000000000int * 0x10000000000000000int);
    }
    while lo + 1 < hi
        invariant
            lo < hi <= 0x10000000000000000,
            lo * lo <= x,
            x < hi * hi,
        decreases hi - lo,
    {
        let mid = lo + (hi - lo) / 2;
        proof {
            assert(mid * mid < 0x100000000000000000000000000000000) by (nonlinear_arith)
                requires
                    mid < 0x10000000000000000,
            ;
        }
        if mid * mid <= x {
            lo = mid;
        } else {
            hi = mid;
        }
    }
    lo
}

proof fn lemma_isqrt_bound(m: int, x: int, b: int)
    requires
        m >= 0,
        b >= 1,
        m * m <= x,
        x < b * b,
    ensures
        m < b,
{
    assert(m < b) by (nonlinear_arith)
        requires
            m >= 0,
            b >= 1,
            m * m <= x,
            x < b * b,
    ;
}

/// `10^e` as an `i128`; `e` must stay within the range whose powers fit.
fn pow10_i128(e: u32) -> (r: i128)
    requires
        e <= 37,
    ensures
        r == pow10(e as nat),
{
    let mut acc: i128 = 1;
    let mut i: u32 = 0;
    proof {
        lemma_pow10_values();
    }
    while i < e
        invariant
            i <= e <= 37,
            acc == pow10(i as nat),
            pow10(37) < 0x7fffffffffffffffffffffffffffffff,
        decreases e - i,
    {
        proof {
            lemma_pow10_pos(i as nat);
            lemma_pow10_mono((i + 1) as nat, 37);
            lemma_pow10_pos((37 - (i + 1)) as nat);
        }
        acc = acc * 10;
        i = i + 1;
    }
    acc
}

pub proof fn lemma_pow10_mono(a: nat, b: nat)
    requires
        a <= b,
    ensures
        pow10(a) <= pow10(b),
{
    lemma_pow10_adds(a, (b - a) as nat);
    lemma_pow10_pos(a);
    lemma_pow10_pos((b - a) as nat);
    assert(pow10(a) * 1 <= pow10(a) * pow10((b - a) as nat)) by (nonlinear_arith)
        requires
            pow10(a) >= 1,
            pow10((b - a) as nat) >= 1,
    ;
}

proof fn lemma_abs_mul_bound(m: int, p: int, mb: int, pb: int)
    requires
        -mb < m < mb,
        1 <= p <= pb,
        0 < mb,
    ensures
        -(mb * pb) <= m * p <= mb * pb,
{
    assert(-(mb * pb) <= m * p <= mb * pb) by (nonlinear_arith)
        requires
            -mb < m < mb,
            1 <= p <= pb,
            0 < mb,
    ;
}

proof fn lemma_mul_nonzero(a: int, b: int)
    requires
        a != 0,
        b >= 1,
    ensures
        a * b != 0,
{
    assert(a * b != 0) by (nonlinear_arith)
        requires
            a != 0,
            b >= 1,
    ;
}

proof fn lemma_mul_sign(a: int, b: int)
    requires
        b >= 1,
    ensures
        a < 0 <==> a * b < 0,
{
    assert(a < 0 <==> a * b < 0) by (nonlinear_arith)
        requires
            b >= 1,
    ;
}

proof fn lemma_rescaled_bound(u: int, p: int, units: int)
    requires
        p >= 1,
        u * p == units,
        -units_limit() <= units <= units_limit(),
    ensures
        -units_limit() <= u <= units_limit(),
{
    lemma_pow10_pos(37);
    assert(-units_limit() <= u <= units_limit()) by (nonlinear_arith)
        requires
            p >= 1,
            u * p == units,
            -units_limit() <= units <= units_limit(),
            units_limit() >= 1,
    ;
}

proof fn lemma_units_factor(m: int, a: int, b: int)
    requires
        b >= 1,
        -units_limit() <= m * (a * b) <= units_limit(),
    ensures
        -units_limit() <= m * a <= units_limit(),
        (m * a) * b == m * (a * b),
{
    lemma_pow10_pos(37);
    assert((m * a) * b == m * (a * b)) by (nonlinear_arith);
    assert(-units_limit() <= m * a <= units_limit()) by (nonlinear_arith)
        requires
            b >= 1,
            -units_limit() <= m * (a * b) <= units_limit(),
            units_limit() >= 1,
    ;
}

} // verus!
