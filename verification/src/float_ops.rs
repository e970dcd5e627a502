//! Transcendental operations derived once, generically, from the
//! operand-application primitives, for any element type with the
//! floating-point capabilities of `FloatMathElement`.
//!
//! Values outside an operation's mathematical domain are not trapped at
//! this layer: the element type's own out-of-domain result (a
//! floating-point implementation's not-a-number value) lands on the stack
//! like any other result.

use vstd::prelude::*;

use crate::element::FloatMathElement;
use crate::error::StackError;
use crate::shape::{second_of, top_of};
use crate::stack_traits::InPlaceFnApplication;

verus! {

/// The power, logarithm and exponential operations on the stack.
pub trait LogExpOperations: InPlaceFnApplication where Self::Elem: FloatMathElement {
    /// Replace the top two elements by a power: the second element is the
    /// base and the top is the exponent, so the new top is
    /// `old second ^ old top`.
    fn pow(&mut self) -> (res: Result<(), StackError>)
        ensures
            Self::enough(old(self).contents(), 2) ==> res == Ok::<(), StackError>(())
                && final(self).contents() == Self::collapsed(
                old(self).contents(),
                second_of(old(self).contents()).pow_spec(top_of(old(self).contents())),
            ),
            !Self::enough(old(self).contents(), 2) ==> res == Err::<(), StackError>(
                (StackError::NotEnoughOperands {
                    num_required: 2,
                    num_available: old(self).contents().len() as usize,
                }),
            ) && final(self).contents() == old(self).contents(),
    {
        self.binary_fn_in_place_first_arg(
            |x: Self::Elem, y: Self::Elem| -> (r: Self::Elem)
                ensures r == y.pow_spec(x)
                { y.pow_elem(x) },
        )
    }

    /// Replace the top element in place by its natural logarithm.
    fn ln(&mut self) -> (res: Result<(), StackError>)
        ensures
            Self::enough(old(self).contents(), 1) ==> res == Ok::<(), StackError>(())
                && final(self).contents() == old(self).contents().update(
                old(self).contents().len() - 1,
                top_of(old(self).contents()).ln_spec(),
            ),
            !Self::enough(old(self).contents(), 1) ==> res == Err::<(), StackError>(
                (StackError::NotEnoughOperands {
                    num_required: 1,
                    num_available: old(self).contents().len() as usize,
                }),
            ) && final(self).contents() == old(self).contents(),
    {
        self.unary_fn_in_place(
            |x: Self::Elem| -> (r: Self::Elem)
                ensures r == x.ln_spec()
                { x.ln_elem() },
        )
    }

    /// Replace the top element in place by its base-2 logarithm.
    fn log2(&mut self) -> (res: Result<(), StackError>)
        ensures
            Self::enough(old(self).contents(), 1) ==> res == Ok::<(), StackError>(())
                && final(self).contents() == old(self).contents().update(
                old(self).contents().len() - 1,
                top_of(old(self).contents()).log2_spec(),
            ),
            !Self::enough(old(self).contents(), 1) ==> res == Err::<(), StackError>(
                (StackError::NotEnoughOperands {
                    num_required: 1,
                    num_available: old(self).contents().len() as usize,
                }),
            ) && final(self).contents() == old(self).contents(),
    {
        self.unary_fn_in_place(
            |x: Self::Elem| -> (r: Self::Elem)
                ensures r == x.log2_spec()
                { x.log2_elem() },
        )
    }

    /// Replace the top element in place by its base-10 logarithm.
    fn log10(&mut self) -> (res: Result<(), StackError>)
        ensures
            Self::enough(old(self).contents(), 1) ==> res == Ok::<(), StackError>(())
                && final(self).contents() == old(self).contents().update(
                old(self).contents().len() - 1,
                top_of(old(self).contents()).log10_spec(),
            ),
            !Self::enough(old(self).contents(), 1) ==> res == Err::<(), StackError>(
                (StackError::NotEnoughOperands {
                    num_required: 1,
                    num_available: old(self).contents().len() as usize,
                }),
            ) && final(self).contents() == old(self).contents(),
    {
        self.unary_fn_in_place(
            |x: Self::Elem| -> (r: Self::Elem)
                ensures r == x.log10_spec()
                { x.log10_elem() },
        )
    }

    /// Replace the top element in place by its exponential (`e` raised to the element).
    fn exp(&mut self) -> (res: Result<(), StackError>)
        ensures
            Self::enough(old(self).contents(), 1) ==> res == Ok::<(), StackError>(())
                && final(self).contents() == old(self).contents().update(
                old(self).contents().len() - 1,
                top_of(old(self).contents()).exp_spec(),
            ),
            !Self::enough(old(self).contents(), 1) ==> res == Err::<(), StackError>(
                (StackError::NotEnoughOperands {
                    num_required: 1,
                    num_available: old(self).contents().len() as usize,
                }),
            ) && final(self).contents() == old(self).contents(),
    {
        self.unary_fn_in_place(
            |x: Self::Elem| -> (r: Self::Elem)
                ensures r == x.exp_spec()
                { x.exp_elem() },
        )
    }

    /// Replace the top element in place by its power of two (`2` raised to the element).
    fn exp2(&mut self) -> (res: Result<(), StackError>)
        ensures
            Self::enough(old(self).contents(), 1) ==> res == Ok::<(), StackError>(())
                && final(self).contents() == old(self).contents().update(
                old(self).contents().len() - 1,
                top_of(old(self).contents()).exp2_spec(),
            ),
            !Self::enough(old(self).contents(), 1) ==> res == Err::<(), StackError>(
                (StackError::NotEnoughOperands {
                    num_required: 1,
                    num_available: old(self).contents().len() as usize,
                }),
            ) && final(self).contents() == old(self).contents(),
    {
        self.unary_fn_in_place(
            |x: Self::Elem| -> (r: Self::Elem)
                ensures r == x.exp2_spec()
                { x.exp2_elem() },
        )
    }
}

/// The trigonometric operations on the stack.
pub trait TrigOperations: InPlaceFnApplication where Self::Elem: FloatMathElement {
    /// Replace the top element in place by its sine.
    fn sin(&mut self) -> (res: Result<(), StackError>)
        ensures
            Self::enough(old(self).contents(), 1) ==> res == Ok::<(), StackError>(())
                && final(self).contents() == old(self).contents().update(
                old(self).contents().len() - 1,
                top_of(old(self).contents()).sin_spec(),
            ),
            !Self::enough(old(self).contents(), 1) ==> res == Err::<(), StackError>(
                (StackError::NotEnoughOperands {
                    num_required: 1,
                    num_available: old(self).contents().len() as usize,
                }),
            ) && final(self).contents() == old(self).contents(),
    {
        self.unary_fn_in_place(
            |x: Self::Elem| -> (r: Self::Elem)
                ensures r == x.sin_spec()
                { x.sin_elem() },
        )
    }

    /// Replace the top element in place by its cosine.
    fn cos(&mut self) -> (res: Result<(), StackError>)
        ensures
            Self::enough(old(self).contents(), 1) ==> res == Ok::<(), StackError>(())
                && final(self).contents() == old(self).contents().update(
                old(self).contents().len() - 1,
                top_of(old(self).contents()).cos_spec(),
            ),
            !Self::enough(old(self).contents(), 1) ==> res == Err::<(), StackError>(
                (StackError::NotEnoughOperands {
                    num_required: 1,
                    num_available: old(self).contents().len() as usize,
                }),
            ) && final(self).contents() == old(self).contents(),
    {
        self.unary_fn_in_place(
            |x: Self::Elem| -> (r: Self::Elem)
                ensures r == x.cos_spec()
                { x.cos_elem() },
        )
    }

    /// Replace the top element in place by its tangent.
    fn tan(&mut self) -> (res: Result<(), StackError>)
        ensures
            Self::enough(old(self).contents(), 1) ==> res == Ok::<(), StackError>(())
                && final(self).contents() == old(self).contents().update(
                old(self).contents().len() - 1,
                top_of(old(self).contents()).tan_spec(),
            ),
            !Self::enough(old(self).contents(), 1) ==> res == Err::<(), StackError>(
                (StackError::NotEnoughOperands {
                    num_required: 1,
                    num_available: old(self).contents().len() as usize,
                }),
            ) && final(self).contents() == old(self).contents(),
    {
        self.unary_fn_in_place(
            |x: Self::Elem| -> (r: Self::Elem)
                ensures r == x.tan_spec()
                { x.tan_elem() },
        )
    }

    /// Replace the top element in place by its arcsine.
    fn asin(&mut self) -> (res: Result<(), StackError>)
        ensures
            Self::enough(old(self).contents(), 1) ==> res == Ok::<(), StackError>(())
                && final(self).contents() == old(self).contents().update(
                old(self).contents().len() - 1,
                top_of(old(self).contents()).asin_spec(),
            ),
            !Self::enough(old(self).contents(), 1) ==> res == Err::<(), StackError>(
                (StackError::NotEnoughOperands {
                    num_required: 1,
                    num_available: old(self).contents().len() as usize,
                }),
            ) && final(self).contents() == old(self).contents(),
    {
        self.unary_fn_in_place(
            |x: Self::Elem| -> (r: Self::Elem)
                ensures r == x.asin_spec()
                { x.asin_elem() },
        )
    }

    /// Replace the top element in place by its arccosine.
    fn acos(&mut self) -> (res: Result<(), StackError>)
        ensures
            Self::enough(old(self).contents(), 1) ==> res == Ok::<(), StackError>(())
                && final(self).contents() == old(self).contents().update(
                old(self).contents().len() - 1,
                top_of(old(self).contents()).acos_spec(),
            ),
            !Self::enough(old(self).contents(), 1) ==> res == Err::<(), StackError>(
                (StackError::NotEnoughOperands {
                    num_required: 1,
                    num_available: old(self).contents().len() as usize,
                }),
            ) && final(self).contents() == old(self).contents(),
    {
        self.unary_fn_in_place(
            |x: Self::Elem| -> (r: Self::Elem)
                ensures r == x.acos_spec()
                { x.acos_elem() },
        )
    }

    /// Replace the top element in place by its arctangent.
    fn atan(&mut self) -> (res: Result<(), StackError>)
        ensures
            Self::enough(old(self).contents(), 1) ==> res == Ok::<(), StackError>(())
                && final(self).contents() == old(self).contents().update(
                old(self).contents().len() - 1,
                top_of(old(self).contents()).atan_spec(),
            ),
            !Self::enough(old(self).contents(), 1) ==> res == Err::<(), StackError>(
                (StackError::NotEnoughOperands {
                    num_required: 1,
                    num_available: old(self).contents().len() as usize,
                }),
            ) && final(self).contents() == old(self).contents(),
    {
        self.unary_fn_in_place(
            |x: Self::Elem| -> (r: Self::Elem)
                ensures r == x.atan_spec()
                { x.atan_elem() },
        )
    }

    /// Replace the top two elements by the two-argument arctangent of the
    /// second element and the top: the new top is
    /// `atan2(old second, old top)`.
    fn atan2(&mut self) -> (res: Result<(), StackError>)
        ensures
            Self::enough(old(self).contents(), 2) ==> res == Ok::<(), StackError>(())
                && final(self).contents() == Self::collapsed(
                old(self).contents(),
                second_of(old(self).contents()).atan2_spec(top_of(old(self).contents())),
            ),
            !Self::enough(old(self).contents(), 2) ==> res == Err::<(), StackError>(
                (StackError::NotEnoughOperands {
                    num_required: 2,
                    num_available: old(self).contents().len() as usize,
                }),
            ) && final(self).contents() == old(self).contents(),
    {
        self.binary_fn_in_place_first_arg(
            |x: Self::Elem, y: Self::Elem| -> (r: Self::Elem)
                ensures r == y.atan2_spec(x)
                { y.atan2_elem(x) },
        )
    }
}

/// Every transcendental operation in one capability: the power,
/// logarithm and exponential group together with the trigonometric group,
/// for callers that want the whole scientific-calculator surface behind a
/// single bound.
pub trait FloatMathOperations: InPlaceFnApplication where Self::Elem: FloatMathElement {
    /// Replace the top two elements by a power: the second element is the
    /// base and the top is the exponent, so the new top is
    /// `old second ^ old top`.
    fn pow(&mut self) -> (res: Result<(), StackError>)
        ensures
            Self::enough(old(self).contents(), 2) ==> res == Ok::<(), StackError>(())
                && final(self).contents() == Self::collapsed(
                old(self).contents(),
                second_of(old(self).contents()).pow_spec(top_of(old(self).contents())),
            ),
            !Self::enough(old(self).contents(), 2) ==> res == Err::<(), StackError>(
                (StackError::NotEnoughOperands {
                    num_required: 2,
                    num_available: old(self).contents().len() as usize,
                }),
            ) && final(self).contents() == old(self).contents(),
    {
        self.binary_fn_in_place_first_arg(
            |x: Self::Elem, y: Self::Elem| -> (r: Self::Elem)
                ensures r == y.pow_spec(x)
                { y.pow_elem(x) },
        )
    }

    /// Replace the top element in place by its natural logarithm.
    fn ln(&mut self) -> (res: Result<(), StackError>)
        ensures
            Self::enough(old(self).contents(), 1) ==> res == Ok::<(), StackError>(())
                && final(self).contents() == old(self).contents().update(
                old(self).contents().len() - 1,
                top_of(old(self).contents()).ln_spec(),
            ),
            !Self::enough(old(self).contents(), 1) ==> res == Err::<(), StackError>(
                (StackError::NotEnoughOperands {
                    num_required: 1,
                    num_available: old(self).contents().len() as usize,
                }),
            ) && final(self).contents() == old(self).contents(),
    {
        self.unary_fn_in_place(
            |x: Self::Elem| -> (r: Self::Elem)
                ensures r == x.ln_spec()
                { x.ln_elem() },
        )
    }

    /// Replace the top element in place by its base-2 logarithm.
    fn log2(&mut self) -> (res: Result<(), StackError>)
        ensures
            Self::enough(old(self).contents(), 1) ==> res == Ok::<(), StackError>(())
                && final(self).contents() == old(self).contents().update(
                old(self).contents().len() - 1,
                top_of(old(self).contents()).log2_spec(),
            ),
            !Self::enough(old(self).contents(), 1) ==> res == Err::<(), StackError>(
                (StackError::NotEnoughOperands {
                    num_required: 1,
                    num_available: old(self).contents().len() as usize,
                }),
            ) && final(self).contents() == old(self).contents(),
    {
        self.unary_fn_in_place(
            |x: Self::Elem| -> (r: Self::Elem)
                ensures r == x.log2_spec()
                { x.log2_elem() },
        )
    }

    /// Replace the top element in place by its base-10 logarithm.
    fn log10(&mut self) -> (res: Result<(), StackError>)
        ensures
            Self::enough(old(self).contents(), 1) ==> res == Ok::<(), StackError>(())
                && final(self).contents() == old(self).contents().update(
                old(self).contents().len() - 1,
                top_of(old(self).contents()).log10_spec(),
            ),
            !Self::enough(old(self).contents(), 1) ==> res == Err::<(), StackError>(
                (StackError::NotEnoughOperands {
                    num_required: 1,
                    num_available: old(self).contents().len() as usize,
                }),
            ) && final(self).contents() == old(self).contents(),
    {
        self.unary_fn_in_place(
            |x: Self::Elem| -> (r: Self::Elem)
                ensures r == x.log10_spec()
                { x.log10_elem() },
        )
    }

    /// Replace the top element in place by its exponential (`e` raised to the element).
    fn exp(&mut self) -> (res: Result<(), StackError>)
        ensures
            Self::enough(old(self).contents(), 1) ==> res == Ok::<(), StackError>(())
                && final(self).contents() == old(self).contents().update(
                old(self).contents().len() - 1,
                top_of(old(self).contents()).exp_spec(),
            ),
            !Self::enough(old(self).contents(), 1) ==> res == Err::<(), StackError>(
                (StackError::NotEnoughOperands {
                    num_required: 1,
                    num_available: old(self).contents().len() as usize,
                }),
            ) && final(self).contents() == old(self).contents(),
    {
        self.unary_fn_in_place(
            |x: Self::Elem| -> (r: Self::Elem)
                ensures r == x.exp_spec()
                { x.exp_elem() },
        )
    }

    /// Replace the top element in place by its power of two (`2` raised to the element).
    fn exp2(&mut self) -> (res: Result<(), StackError>)
        ensures
            Self::enough(old(self).contents(), 1) ==> res == Ok::<(), StackError>(())
                && final(self).contents() == old(self).contents().update(
                old(self).contents().len() - 1,
                top_of(old(self).contents()).exp2_spec(),
            ),
            !Self::enough(old(self).contents(), 1) ==> res == Err::<(), StackError>(
                (StackError::NotEnoughOperands {
                    num_required: 1,
                    num_available: old(self).contents().len() as usize,
                }),
            ) && final(self).contents() == old(self).contents(),
    {
        self.unary_fn_in_place(
            |x: Self::Elem| -> (r: Self::Elem)
                ensures r == x.exp2_spec()
                { x.exp2_elem() },
        )
    }

    /// Replace the top element in place by its sine.
    fn sin(&mut self) -> (res: Result<(), StackError>)
        ensures
            Self::enough(old(self).contents(), 1) ==> res == Ok::<(), StackError>(())
                && final(self).contents() == old(self).contents().update(
                old(self).contents().len() - 1,
                top_of(old(self).contents()).sin_spec(),
            ),
            !Self::enough(old(self).contents(), 1) ==> res == Err::<(), StackError>(
                (StackError::NotEnoughOperands {
                    num_required: 1,
                    num_available: old(self).contents().len() as usize,
                }),
            ) && final(self).contents() == old(self).contents(),
    {
        self.unary_fn_in_place(
            |x: Self::Elem| -> (r: Self::Elem)
                ensures r == x.sin_spec()
                { x.sin_elem() },
        )
    }

    /// Replace the top element in place by its cosine.
    fn cos(&mut self) -> (res: Result<(), StackError>)
        ensures
            Self::enough(old(self).contents(), 1) ==> res == Ok::<(), StackError>(())
                && final(self).contents() == old(self).contents().update(
                old(self).contents().len() - 1,
                top_of(old(self).contents()).cos_spec(),
            ),
            !Self::enough(old(self).contents(), 1) ==> res == Err::<(), StackError>(
                (StackError::NotEnoughOperands {
                    num_required: 1,
                    num_available: old(self).contents().len() as usize,
                }),
            ) && final(self).contents() == old(self).contents(),
    {
        self.unary_fn_in_place(
            |x: Self::Elem| -> (r: Self::Elem)
                ensures r == x.cos_spec()
                { x.cos_elem() },
        )
    }

    /// Replace the top element in place by its tangent.
    fn tan(&mut self) -> (res: Result<(), StackError>)
        ensures
            Self::enough(old(self).contents(), 1) ==> res == Ok::<(), StackError>(())
                && final(self).contents() == old(self).contents().update(
                old(self).contents().len() - 1,
                top_of(old(self).contents()).tan_spec(),
            ),
            !Self::enough(old(self).contents(), 1) ==> res == Err::<(), StackError>(
                (StackError::NotEnoughOperands {
                    num_required: 1,
                    num_available: old(self).contents().len() as usize,
                }),
            ) && final(self).contents() == old(self).contents(),
    {
        self.unary_fn_in_place(
            |x: Self::Elem| -> (r: Self::Elem)
                ensures r == x.tan_spec()
                { x.tan_elem() },
        )
    }

    /// Replace the top element in place by its arcsine.
    fn asin(&mut self) -> (res: Result<(), StackError>)
        ensures
            Self::enough(old(self).contents(), 1) ==> res == Ok::<(), StackError>(())
                && final(self).contents() == old(self).contents().update(
                old(self).contents().len() - 1,
                top_of(old(self).contents()).asin_spec(),
            ),
            !Self::enough(old(self).contents(), 1) ==> res == Err::<(), StackError>(
                (StackError::NotEnoughOperands {
                    num_required: 1,
                    num_available: old(self).contents().len() as usize,
                }),
            ) && final(self).contents() == old(self).contents(),
    {
        self.unary_fn_in_place(
            |x: Self::Elem| -> (r: Self::Elem)
                ensures r == x.asin_spec()
                { x.asin_elem() },
        )
    }

    /// Replace the top element in place by its arccosine.
    fn acos(&mut self) -> (res: Result<(), StackError>)
        ensures
            Self::enough(old(self).contents(), 1) ==> res == Ok::<(), StackError>(())
                && final(self).contents() == old(self).contents().update(
                old(self).contents().len() - 1,
                top_of(old(self).contents()).acos_spec(),
            ),
            !Self::enough(old(self).contents(), 1) ==> res == Err::<(), StackError>(
                (StackError::NotEnoughOperands {
                    num_required: 1,
                    num_available: old(self).contents().len() as usize,
                }),
            ) && final(self).contents() == old(self).contents(),
    {
        self.unary_fn_in_place(
            |x: Self::Elem| -> (r: Self::Elem)
                ensures r == x.acos_spec()
                { x.acos_elem() },
        )
    }

    /// Replace the top element in place by its arctangent.
    fn atan(&mut self) -> (res: Result<(), StackError>)
        ensures
            Self::enough(old(self).contents(), 1) ==> res == Ok::<(), StackError>(())
                && final(self).contents() == old(self).contents().update(
                old(self).contents().len() - 1,
                top_of(old(self).contents()).atan_spec(),
            ),
            !Self::enough(old(self).contents(), 1) ==> res == Err::<(), StackError>(
                (StackError::NotEnoughOperands {
                    num_required: 1,
                    num_available: old(self).contents().len() as usize,
                }),
            ) && final(self).contents() == old(self).contents(),
    {
        self.unary_fn_in_place(
            |x: Self::Elem| -> (r: Self::Elem)
                ensures r == x.atan_spec()
                { x.atan_elem() },
        )
    }

    /// Replace the top two elements by the two-argument arctangent of the
    /// second element and the top: the new top is
    /// `atan2(old second, old top)`.
    fn atan2(&mut self) -> (res: Result<(), StackError>)
        ensures
            Self::enough(old(self).contents(), 2) ==> res == Ok::<(), StackError>(())
                && final(self).contents() == Self::collapsed(
                old(self).contents(),
                second_of(old(self).contents()).atan2_spec(top_of(old(self).contents())),
            ),
            !Self::enough(old(self).contents(), 2) ==> res == Err::<(), StackError>(
                (StackError::NotEnoughOperands {
                    num_required: 2,
                    num_available: old(self).contents().len() as usize,
                }),
            ) && final(self).contents() == old(self).contents(),
    {
        self.binary_fn_in_place_first_arg(
            |x: Self::Elem, y: Self::Elem| -> (r: Self::Elem)
                ensures r == y.atan2_spec(x)
                { y.atan2_elem(x) },
        )
    }
}

} // verus!
