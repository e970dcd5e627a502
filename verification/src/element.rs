//! Capability traits for the element type of a stack.
//!
//! The stacks are generic over their element type; each group of derived
//! operations asks only for the capabilities it needs.  The library
//! implements the arithmetic capabilities for `i64`; users supply
//! implementations for their own numeric types (a floating-point wrapper,
//! another integer width, a rational).

use vstd::prelude::*;

verus! {

/// An element type with a zero value, used to fill cleared registers.
pub trait ZeroElement: Sized {
    /// The zero value, at the specification level.
    spec fn zero_spec() -> Self;

    /// Produce the zero value.
    fn zero_elem() -> (r: Self)
        ensures
            r == Self::zero_spec(),
    ;
}

/// An element type with signed arithmetic: addition, subtraction,
/// multiplication, division, negation and absolute value.
///
/// Each operation comes with a spec-level counterpart and with a
/// precondition spec (`*_req`) that rules out the inputs on which the
/// operation is not defined for the type, such as integer overflow or
/// division by zero.
pub trait BasicMathElement: Sized + Copy {
    /// When `self + other` is defined.
    spec fn add_req(self, other: Self) -> bool;

    /// The value of `self + other`.
    spec fn add_spec(self, other: Self) -> Self;

    fn add_elem(self, other: Self) -> (r: Self)
        requires
            self.add_req(other),
        ensures
            r == self.add_spec(other),
    ;

    /// When `self - other` is defined.
    spec fn sub_req(self, other: Self) -> bool;

    /// The value of `self - other`.
    spec fn sub_spec(self, other: Self) -> Self;

    fn sub_elem(self, other: Self) -> (r: Self)
        requires
            self.sub_req(other),
        ensures
            r == self.sub_spec(other),
    ;

    /// When `self * other` is defined.
    spec fn mul_req(self, other: Self) -> bool;

    /// The value of `self * other`.
    spec fn mul_spec(self, other: Self) -> Self;

    fn mul_elem(self, other: Self) -> (r: Self)
        requires
            self.mul_req(other),
        ensures
            r == self.mul_spec(other),
    ;

    /// When `self / other` is defined.
    spec fn div_req(self, other: Self) -> bool;

    /// The value of `self / other`.
    spec fn div_spec(self, other: Self) -> Self;

    fn div_elem(self, other: Self) -> (r: Self)
        requires
            self.div_req(other),
        ensures
            r == self.div_spec(other),
    ;

    /// When `-self` is defined.
    spec fn neg_req(self) -> bool;

    /// The value of `-self`.
    spec fn neg_spec(self) -> Self;

    fn neg_elem(self) -> (r: Self)
        requires
            self.neg_req(),
        ensures
            r == self.neg_spec(),
    ;

    /// When the absolute value of `self` is defined.
    spec fn abs_req(self) -> bool;

    /// The absolute value of `self`.
    spec fn abs_spec(self) -> Self;

    fn abs_elem(self) -> (r: Self)
        requires
            self.abs_req(),
        ensures
            r == self.abs_spec(),
    ;
}

/// An element type with the transcendental operations of a scientific
/// calculator.  The operations are total: a value outside an operation's
/// domain produces whatever out-of-domain value the element type uses (a
/// floating-point implementation propagates its not-a-number value), and
/// the stack layer passes that value through untouched.
pub trait FloatMathElement: Sized + Copy {
    /// The value of `self` raised to `exponent`.
    spec fn pow_spec(self, exponent: Self) -> Self;

    fn pow_elem(self, exponent: Self) -> (r: Self)
        ensures
            r == self.pow_spec(exponent),
    ;

    /// The natural logarithm of `self`.
    spec fn ln_spec(self) -> Self;

    fn ln_elem(self) -> (r: Self)
        ensures
            r == self.ln_spec(),
    ;

    /// The base-2 logarithm of `self`.
    spec fn log2_spec(self) -> Self;

    fn log2_elem(self) -> (r: Self)
        ensures
            r == self.log2_spec(),
    ;

    /// The base-10 logarithm of `self`.
    spec fn log10_spec(self) -> Self;

    fn log10_elem(self) -> (r: Self)
        ensures
            r == self.log10_spec(),
    ;

    /// `e` raised to `self`.
    spec fn exp_spec(self) -> Self;

    fn exp_elem(self) -> (r: Self)
        ensures
            r == self.exp_spec(),
    ;

    /// `2` raised to `self`.
    spec fn exp2_spec(self) -> Self;

    fn exp2_elem(self) -> (r: Self)
        ensures
            r == self.exp2_spec(),
    ;

    /// The sine of `self`.
    spec fn sin_spec(self) -> Self;

    fn sin_elem(self) -> (r: Self)
        ensures
            r == self.sin_spec(),
    ;

    /// The cosine of `self`.
    spec fn cos_spec(self) -> Self;

    fn cos_elem(self) -> (r: Self)
        ensures
            r == self.cos_spec(),
    ;

    /// The tangent of `self`.
    spec fn tan_spec(self) -> Self;

    fn tan_elem(self) -> (r: Self)
        ensures
            r == self.tan_spec(),
    ;

    /// The arcsine of `self`.
    spec fn asin_spec(self) -> Self;

    fn asin_elem(self) -> (r: Self)
        ensures
            r == self.asin_spec(),
    ;

    /// The arccosine of `self`.
    spec fn acos_spec(self) -> Self;

    fn acos_elem(self) -> (r: Self)
        ensures
            r == self.acos_spec(),
    ;

    /// The arctangent of `self`.
    spec fn atan_spec(self) -> Self;

    fn atan_elem(self) -> (r: Self)
        ensures
            r == self.atan_spec(),
    ;

    /// The two-argument arctangent of `self` and `other`.
    spec fn atan2_spec(self, other: Self) -> Self;

    fn atan2_elem(self, other: Self) -> (r: Self)
        ensures
            r == self.atan2_spec(other),
    ;
}

impl ZeroElement for i64 {
    open spec fn zero_spec() -> i64 {
        0
    }

    fn zero_elem() -> i64 {
        0
    }
}

impl BasicMathElement for i64 {
    open spec fn add_req(self, other: i64) -> bool {
        i64::MIN <= self + other <= i64::MAX
    }

    open spec fn add_spec(self, other: i64) -> i64 {
        (self + other) as i64
    }

    fn add_elem(self, other: i64) -> i64 {
        self + other
    }

    open spec fn sub_req(self, other: i64) -> bool {
        i64::MIN <= self - other <= i64::MAX
    }

    open spec fn sub_spec(self, other: i64) -> i64 {
        (self - other) as i64
    }

    fn sub_elem(self, other: i64) -> i64 {
        self - other
    }

    open spec fn mul_req(self, other: i64) -> bool {
        i64::MIN <= self * other <= i64::MAX
    }

    open spec fn mul_spec(self, other: i64) -> i64 {
        (self * other) as i64
    }

    fn mul_elem(self, other: i64) -> i64 {
        self * other
    }

    open spec fn div_req(self, other: i64) -> bool {
        other != 0 && !(self == i64::MIN && other == -1)
    }

    open spec fn div_spec(self, other: i64) -> i64 {
        let x = self as int;
        let d = other as int;
        let q = if x == 0 {
            0
        } else if x > 0 && d > 0 {
            x / d
        } else if x < 0 && d < 0 {
            (x * -1) / (d * -1)
        } else if x < 0 {
            ((x * -1) / d) * -1
        } else {
            (x / (d * -1)) * -1
        };
        q as i64
    }

    fn div_elem(self, other: i64) -> i64 {
        let r = self.checked_div(other);
        proof {
            broadcast use vstd::arithmetic::div_mod::group_div_basics;

            if self < 0 && other < -1 {
                vstd::arithmetic::div_mod::lemma_div_is_strictly_smaller(
                    -(self as int),
                    -(other as int),
                );
            }
            assert(r is Some);
        }
        match r {
            Some(v) => v,
            None => 0,
        }
    }

    open spec fn neg_req(self) -> bool {
        self != i64::MIN
    }

    open spec fn neg_spec(self) -> i64 {
        (-self) as i64
    }

    fn neg_elem(self) -> i64 {
        -self
    }

    open spec fn abs_req(self) -> bool {
        self != i64::MIN
    }

    open spec fn abs_spec(self) -> i64 {
        if self < 0 {
            (-self) as i64
        } else {
            self
        }
    }

    fn abs_elem(self) -> i64 {
        if self < 0 {
            -self
        } else {
            self
        }
    }
}

} // verus!
