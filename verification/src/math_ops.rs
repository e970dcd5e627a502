//! Arithmetic derived once, generically, from the operand-application
//! primitives: every operation is a one-line composition of a primitive
//! with an element operation, and works unchanged for every stack
//! representation.

use vstd::prelude::*;

use crate::element::BasicMathElement;
use crate::error::StackError;
use crate::shape::{second_of, top_of};
use crate::stack_traits::InPlaceFnApplication;

verus! {

/// Signed arithmetic on the stack.
///
/// Binary operations consume the two topmost elements and leave the single
/// result on top; unary operations replace the top element in place.  On a
/// stack without enough operands they fail with `NotEnoughOperands` and
/// change nothing.
pub trait BasicMathOperations: InPlaceFnApplication where Self::Elem: BasicMathElement {
    /// Replace the top two elements by their sum: the new top is
    /// `old top + old second`.
    fn add(&mut self) -> (res: Result<(), StackError>)
        requires
            Self::enough(old(self).contents(), 2) ==> top_of(old(self).contents()).add_req(
                second_of(old(self).contents()),
            ),
        ensures
            Self::enough(old(self).contents(), 2) ==> res == Ok::<(), StackError>(())
                && final(self).contents() == Self::collapsed(
                old(self).contents(),
                top_of(old(self).contents()).add_spec(second_of(old(self).contents())),
            ),
            !Self::enough(old(self).contents(), 2) ==> res == Err::<(), StackError>(
                (StackError::NotEnoughOperands {
                    num_required: 2,
                    num_available: old(self).contents().len() as usize,
                }),
            ) && final(self).contents() == old(self).contents(),
    {
        self.binary_fn_in_place_first_arg(
            |x: Self::Elem, y: Self::Elem| -> (r: Self::Elem)
                requires x.add_req(y)
                ensures r == x.add_spec(y)
                { x.add_elem(y) },
        )
    }

    /// Replace the top two elements by their difference: the new top is
    /// `old top - old second`.
    fn subtract(&mut self) -> (res: Result<(), StackError>)
        requires
            Self::enough(old(self).contents(), 2) ==> top_of(old(self).contents()).sub_req(
                second_of(old(self).contents()),
            ),
        ensures
            Self::enough(old(self).contents(), 2) ==> res == Ok::<(), StackError>(())
                && final(self).contents() == Self::collapsed(
                old(self).contents(),
                top_of(old(self).contents()).sub_spec(second_of(old(self).contents())),
            ),
            !Self::enough(old(self).contents(), 2) ==> res == Err::<(), StackError>(
                (StackError::NotEnoughOperands {
                    num_required: 2,
                    num_available: old(self).contents().len() as usize,
                }),
            ) && final(self).contents() == old(self).contents(),
    {
        self.binary_fn_in_place_first_arg(
            |x: Self::Elem, y: Self::Elem| -> (r: Self::Elem)
                requires x.sub_req(y)
                ensures r == x.sub_spec(y)
                { x.sub_elem(y) },
        )
    }

    /// Replace the top two elements by their product: the new top is
    /// `old top * old second`.
    fn multiply(&mut self) -> (res: Result<(), StackError>)
        requires
            Self::enough(old(self).contents(), 2) ==> top_of(old(self).contents()).mul_req(
                second_of(old(self).contents()),
            ),
        ensures
            Self::enough(old(self).contents(), 2) ==> res == Ok::<(), StackError>(())
                && final(self).contents() == Self::collapsed(
                old(self).contents(),
                top_of(old(self).contents()).mul_spec(second_of(old(self).contents())),
            ),
            !Self::enough(old(self).contents(), 2) ==> res == Err::<(), StackError>(
                (StackError::NotEnoughOperands {
                    num_required: 2,
                    num_available: old(self).contents().len() as usize,
                }),
            ) && final(self).contents() == old(self).contents(),
    {
        self.binary_fn_in_place_first_arg(
            |x: Self::Elem, y: Self::Elem| -> (r: Self::Elem)
                requires x.mul_req(y)
                ensures r == x.mul_spec(y)
                { x.mul_elem(y) },
        )
    }

    /// Replace the top two elements by their quotient.  Following the
    /// reverse-Polish convention the top is the divisor: the new top is
    /// `old second / old top`.
    fn divide(&mut self) -> (res: Result<(), StackError>)
        requires
            Self::enough(old(self).contents(), 2) ==> second_of(old(self).contents()).div_req(
                top_of(old(self).contents()),
            ),
        ensures
            Self::enough(old(self).contents(), 2) ==> res == Ok::<(), StackError>(())
                && final(self).contents() == Self::collapsed(
                old(self).contents(),
                second_of(old(self).contents()).div_spec(top_of(old(self).contents())),
            ),
            !Self::enough(old(self).contents(), 2) ==> res == Err::<(), StackError>(
                (StackError::NotEnoughOperands {
                    num_required: 2,
                    num_available: old(self).contents().len() as usize,
                }),
            ) && final(self).contents() == old(self).contents(),
    {
        self.binary_fn_in_place_second_arg(
            |x: Self::Elem, y: Self::Elem| -> (r: Self::Elem)
                requires y.div_req(x)
                ensures r == y.div_spec(x)
                { y.div_elem(x) },
        )
    }

    /// Negate the top element in place.
    fn change_sign(&mut self) -> (res: Result<(), StackError>)
        requires
            Self::enough(old(self).contents(), 1) ==> top_of(old(self).contents()).neg_req(),
        ensures
            Self::enough(old(self).contents(), 1) ==> res == Ok::<(), StackError>(())
                && final(self).contents() == old(self).contents().update(
                old(self).contents().len() - 1,
                top_of(old(self).contents()).neg_spec(),
            ),
            !Self::enough(old(self).contents(), 1) ==> res == Err::<(), StackError>(
                (StackError::NotEnoughOperands {
                    num_required: 1,
                    num_available: old(self).contents().len() as usize,
                }),
            ) && final(self).contents() == old(self).contents(),
    {
        self.unary_fn_in_place(
            |x: Self::Elem| -> (r: Self::Elem)
                requires x.neg_req()
                ensures r == x.neg_spec()
                { x.neg_elem() },
        )
    }

    /// Replace the top element by its absolute value in place.
    fn absolute_value(&mut self) -> (res: Result<(), StackError>)
        requires
            Self::enough(old(self).contents(), 1) ==> top_of(old(self).contents()).abs_req(),
        ensures
            Self::enough(old(self).contents(), 1) ==> res == Ok::<(), StackError>(())
                && final(self).contents() == old(self).contents().update(
                old(self).contents().len() - 1,
                top_of(old(self).contents()).abs_spec(),
            ),
            !Self::enough(old(self).contents(), 1) ==> res == Err::<(), StackError>(
                (StackError::NotEnoughOperands {
                    num_required: 1,
                    num_available: old(self).contents().len() as usize,
                }),
            ) && final(self).contents() == old(self).contents(),
    {
        self.unary_fn_in_place(
            |x: Self::Elem| -> (r: Self::Elem)
                requires x.abs_req()
                ensures r == x.abs_spec()
                { x.abs_elem() },
        )
    }
}

} // verus!
