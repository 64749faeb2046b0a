//! Signed fixed-point arithmetic in sign-and-magnitude form.
//!
//! Every money amount in the engine is an unsigned `u128` magnitude with an
//! implicit decimal scale; signed quantities (position size, funding
//! checkpoints, profit and loss) are a magnitude together with a sign flag.
//! All arithmetic is checked: an operation whose exact result does not fit
//! in a `u128` magnitude reports failure instead of wrapping.

use vstd::prelude::*;

verus! {

use vstd::arithmetic::div_mod::lemma_fundamental_div_mod;
use vstd::arithmetic::mul::lemma_mul_inequality;

/// Largest magnitude the engine accepts for a single money amount (margin,
/// notional, position size, premium fraction, price or cap). Keeping every
/// such amount at or below this bound guarantees that the product of any two
/// of them fits in a `u128`.
pub const MAX_AMOUNT: u128 = 0x7fff_ffff_ffff_ffff;

/// Magnitude of `a`.
pub open spec fn int_abs(a: int) -> int {
    if a >= 0 {
        a
    } else {
        -a
    }
}

/// Division truncated toward zero, as performed on sign-and-magnitude
/// values: the magnitudes are divided and the result carries the sign of
/// the quotient. Meaningful only for `b != 0`.
pub open spec fn div_trunc(a: int, b: int) -> int {
    let q = int_abs(a) / int_abs(b);
    if (a < 0) != (b < 0) {
        -q
    } else {
        q
    }
}

/// The sign-and-magnitude form of a mathematical integer; meaningful
/// for `|i| <= u128::MAX`.
pub open spec fn int_to_integer(i: int) -> Integer {
    Integer { negative: i < 0, value: int_abs(i) as u128 }
}

/// A signed fixed-point number: a `u128` magnitude and a sign flag.
#[derive(Clone, Copy, Debug, PartialEq, Eq, Structural)]
pub struct Integer {
    pub negative: bool,
    pub value: u128,
}

impl Integer {
    /// The mathematical value.
    pub open spec fn as_int(self) -> int {
        if self.negative {
            -(self.value as int)
        } else {
            self.value as int
        }
    }

    /// Canonical form: zero is never marked negative, so equal values are
    /// structurally equal.
    pub open spec fn wf(self) -> bool {
        self.negative ==> self.value > 0
    }

    /// Magnitude does not exceed [`MAX_AMOUNT`].
    pub open spec fn bounded(self) -> bool {
        self.value <= MAX_AMOUNT
    }

    pub fn zero() -> (r: Integer)
        ensures
            r.as_int() == 0,
            r.wf(),
            r.bounded(),
    {
        Integer { negative: false, value: 0 }
    }

    pub fn new_positive(v: u128) -> (r: Integer)
        ensures
            r.as_int() == v as int,
            r.wf(),
            r.value == v,
    {
        Integer { negative: false, value: v }
    }

    pub fn new_negative(v: u128) -> (r: Integer)
        ensures
            r.as_int() == -(v as int),
            r.wf(),
            r.value == v,
    {
        Integer { negative: v > 0, value: v }
    }

    pub fn is_zero(&self) -> (r: bool)
        requires
            self.wf(),
        ensures
            r == (self.as_int() == 0),
    {
        self.value == 0
    }

    pub fn is_negative(&self) -> (r: bool)
        requires
            self.wf(),
        ensures
            r == (self.as_int() < 0),
    {
        self.negative
    }

    pub fn is_positive(&self) -> (r: bool)
        requires
            self.wf(),
        ensures
            r == (self.as_int() > 0),
    {
        !self.negative && self.value > 0
    }

    pub fn invert_sign(self) -> (r: Integer)
        ensures
            r.as_int() == -self.as_int(),
            r.wf(),
            r.value == self.value,
    {
        if self.value == 0 {
            Integer { negative: false, value: 0 }
        } else {
            Integer { negative: !self.negative, value: self.value }
        }
    }

    /// Exact signed addition; fails only when the result's magnitude
    /// exceeds `u128::MAX`.
    pub fn checked_add(self, other: Integer) -> (r: Option<Integer>)
        requires
            self.wf(),
            other.wf(),
        ensures
            match r {
                Some(s) => {
                    &&& s.wf()
                    &&& s.as_int() == self.as_int() + other.as_int()
                    &&& s.value <= self.value + other.value
                },
                None => int_abs(self.as_int() + other.as_int()) > u128::MAX as int,
            },
    {
        if self.negative == other.negative {
            if self.value <= u128::MAX - other.value {
                let v = self.value + other.value;
                Some(Integer { negative: self.negative && v > 0, value: v })
            } else {
                None
            }
        } else {
            if self.value >= other.value {
                let v = self.value - other.value;
                Some(Integer { negative: self.negative && v > 0, value: v })
            } else {
                let v = other.value - self.value;
                Some(Integer { negative: other.negative && v > 0, value: v })
            }
        }
    }

    /// Exact signed subtraction; fails only when the result's magnitude
    /// exceeds `u128::MAX`.
    pub fn checked_sub(self, other: Integer) -> (r: Option<Integer>)
        requires
            self.wf(),
            other.wf(),
        ensures
            match r {
                Some(s) => {
                    &&& s.wf()
                    &&& s.as_int() == self.as_int() - other.as_int()
                    &&& s.value <= self.value + other.value
                },
                None => int_abs(self.as_int() - other.as_int()) > u128::MAX as int,
            },
    {
        self.checked_add(other.invert_sign())
    }

    /// Exact signed multiplication; fails only when the product of the
    /// magnitudes exceeds `u128::MAX`.
    pub fn checked_mul(self, other: Integer) -> (r: Option<Integer>)
        requires
            self.wf(),
            other.wf(),
        ensures
            match r {
                Some(s) => {
                    &&& s.wf()
                    &&& s.as_int() == self.as_int() * other.as_int()
                    &&& s.value == self.value * other.value
                },
                None => self.value * other.value > u128::MAX,
            },
    {
        if self.value == 0 {
            proof {
                assert(self.as_int() * other.as_int() == 0 && self.value * other.value == 0)
                    by (nonlinear_arith)
                    requires
                        self.as_int() == 0,
                        self.value == 0,
                ;
            }
            Some(Integer { negative: false, value: 0 })
        } else if other.value <= u128::MAX / self.value {
            proof {
                lemma_mul_inequality(
                    other.value as int,
                    (u128::MAX / self.value) as int,
                    self.value as int,
                );
                lemma_fundamental_div_mod(u128::MAX as int, self.value as int);
            }
            let v = self.value * other.value;
            proof {
                assert(self.as_int() * other.as_int() == if (self.negative != other.negative) {
                    -((self.value * other.value) as int)
                } else {
                    (self.value * other.value) as int
                }) by (nonlinear_arith);
            }
            Some(Integer { negative: (self.negative != other.negative) && v > 0, value: v })
        } else {
            proof {
                assert(self.value * other.value > u128::MAX) by (nonlinear_arith)
                    requires
                        self.value > 0,
                        other.value > u128::MAX / self.value,
                        u128::MAX / self.value == (u128::MAX as int) / (self.value as int),
                {
                    lemma_fundamental_div_mod(u128::MAX as int, self.value as int);
                    lemma_mul_inequality(
                        (u128::MAX / self.value + 1) as int,
                        other.value as int,
                        self.value as int,
                    );
                }
            }
            None
        }
    }

    /// Signed division, truncated toward zero; fails only on a zero
    /// divisor.
    pub fn checked_div(self, other: Integer) -> (r: Option<Integer>)
        requires
            self.wf(),
            other.wf(),
        ensures
            match r {
                Some(s) => {
                    &&& s.wf()
                    &&& other.as_int() != 0
                    &&& s.value == self.value / other.value
                    &&& s.value <= self.value
                    &&& s.as_int() == div_trunc(self.as_int(), other.as_int())
                },
                None => other.as_int() == 0,
            },
    {
        if other.value == 0 {
            None
        } else {
            let v = self.value / other.value;
            proof {
                assert(self.value / other.value <= self.value) by (nonlinear_arith)
                    requires
                        other.value >= 1,
                ;
            }
            Some(Integer { negative: (self.negative != other.negative) && v > 0, value: v })
        }
    }

    pub fn lt(&self, other: &Integer) -> (r: bool)
        requires
            self.wf(),
            other.wf(),
        ensures
            r == (self.as_int() < other.as_int()),
    {
        match (self.negative, other.negative) {
            (true, true) => self.value > other.value,
            (true, false) => true,
            (false, true) => false,
            (false, false) => self.value < other.value,
        }
    }

    pub fn gt(&self, other: &Integer) -> (r: bool)
        requires
            self.wf(),
            other.wf(),
        ensures
            r == (self.as_int() > other.as_int()),
    {
        other.lt(self)
    }

    pub fn le(&self, other: &Integer) -> (r: bool)
        requires
            self.wf(),
            other.wf(),
        ensures
            r == (self.as_int() <= other.as_int()),
    {
        !other.lt(self)
    }

    pub fn ge(&self, other: &Integer) -> (r: bool)
        requires
            self.wf(),
            other.wf(),
        ensures
            r == (self.as_int() >= other.as_int()),
    {
        !self.lt(other)
    }
}

/// Two well-formed values are structurally equal exactly when they denote
/// the same mathematical value: the canonical form makes the representation
/// unique.
pub proof fn lemma_canonical_eq(a: Integer, b: Integer)
    requires
        a.wf(),
        b.wf(),
    ensures
        (a == b) <==> (a.as_int() == b.as_int()),
{
}

/// Unwraps a checked operation whose failure has been proved
/// impossible at the call site.
pub(crate) fn expect_some(x: Option<Integer>) -> (r: Integer)
    requires
        x is Some,
    ensures
        r == x->Some_0,
{
    match x {
        Some(v) => v,
        None => Integer::zero(),
    }
}

/// Monotonicity of multiplication under per-factor bounds.
pub proof fn lemma_mul_le(a: u128, b: u128, ca: u128, cb: u128)
    requires
        a <= ca,
        b <= cb,
    ensures
        a * b <= ca * cb,
{
    assert(a * b <= ca * cb) by (nonlinear_arith)
        requires
            a <= ca,
            b <= cb,
    ;
}

/// `x * num / den`, the ubiquitous fixed-point scaling step, proved exact
/// at the mathematical level.
pub fn scaled_mul_div(x: u128, num: u128, den: u128) -> (r: u128)
    requires
        x * num <= u128::MAX,
        den >= 1,
    ensures
        r == x * num / (den as int),
{
    let p = x * num;
    p / den
}

} // verus!
