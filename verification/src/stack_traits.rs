//! The two contracts every stack representation implements: the primitive
//! shape operations and the operand-application primitives that all derived
//! arithmetic is built on.

use vstd::prelude::*;

use crate::error::StackError;
use crate::shape::{rotated_down, rotated_up, swapped};

verus! {

/// The specification-level model shared by every stack representation: the
/// held elements as a sequence (last element on top), and the rule saying
/// when enough operands are available for an operation.
pub trait StackModel: Sized {
    type Elem;

    /// The held elements, bottom first; the last element is the top (the X
    /// register of a classic calculator stack).
    spec fn contents(&self) -> Seq<Self::Elem>;

    /// Whether a stack holding `pre` has the `n` operands an operation
    /// needs.  A representation that can never run dry answers `true`
    /// unconditionally.
    spec fn enough(pre: Seq<Self::Elem>, n: int) -> bool;
}

/// The primitive stack-shape operations.
///
/// Every operation reports `NotEnoughOperands` when the stack lacks the
/// operands it needs, and in that case leaves the stack exactly as it was.
/// How the shape changes on success is fixed by the representation's
/// `pushed`, `popped` and `cleared` sequences.
pub trait BasicStackOperations: StackModel {
    /// The contents after pushing `value` onto a stack holding `pre`.
    spec fn pushed(pre: Seq<Self::Elem>, value: Self::Elem) -> Seq<Self::Elem>;

    /// The contents after popping the top of a stack holding `pre`.
    spec fn popped(pre: Seq<Self::Elem>) -> Seq<Self::Elem>;

    /// The contents after clearing a stack holding `pre`.
    spec fn cleared(pre: Seq<Self::Elem>) -> Seq<Self::Elem>;

    /// Cyclically shift the stack so the bottommost element becomes the
    /// top.  A no-op on stacks with fewer than two elements; never fails.
    fn rotate_up(&mut self) -> (res: Result<(), StackError>)
        ensures
            res == Ok::<(), StackError>(()),
            final(self).contents() == rotated_up(old(self).contents()),
    ;

    /// The exact inverse of `rotate_up`: the top element becomes the
    /// bottom.  A no-op on stacks with fewer than two elements; never fails.
    fn rotate_down(&mut self) -> (res: Result<(), StackError>)
        ensures
            res == Ok::<(), StackError>(()),
            final(self).contents() == rotated_down(old(self).contents()),
    ;

    /// Exchange the two topmost elements.
    fn swap(&mut self) -> (res: Result<(), StackError>)
        ensures
            Self::enough(old(self).contents(), 2) ==> res == Ok::<(), StackError>(())
                && final(self).contents() == swapped(old(self).contents()),
            !Self::enough(old(self).contents(), 2) ==> res == Err::<(), StackError>(
                (StackError::NotEnoughOperands {
                    num_required: 2,
                    num_available: old(self).contents().len() as usize,
                }),
            ) && final(self).contents() == old(self).contents(),
    ;

    /// Remove and return the top element.
    fn pop(&mut self) -> (res: Result<Self::Elem, StackError>)
        ensures
            Self::enough(old(self).contents(), 1) ==> res == Ok::<Self::Elem, StackError>(
                old(self).contents().last(),
            ) && final(self).contents() == Self::popped(old(self).contents()),
            !Self::enough(old(self).contents(), 1) ==> res == Err::<Self::Elem, StackError>(
                (StackError::NotEnoughOperands {
                    num_required: 1,
                    num_available: old(self).contents().len() as usize,
                }),
            ) && final(self).contents() == old(self).contents(),
    ;

    /// Insert `value` as the new top element; never fails.
    fn push(&mut self, value: Self::Elem) -> (res: Result<(), StackError>)
        ensures
            res == Ok::<(), StackError>(()),
            final(self).contents() == Self::pushed(old(self).contents(), value),
    ;

    /// Reset the stack to its cleared contents; never fails.
    fn clear(&mut self) -> (res: Result<(), StackError>)
        ensures
            res == Ok::<(), StackError>(()),
            final(self).contents() == Self::cleared(old(self).contents()),
    ;

    /// Remove the top element and discard it: `pop` without the value.
    fn drop(&mut self) -> (res: Result<(), StackError>)
        ensures
            Self::enough(old(self).contents(), 1) ==> res == Ok::<(), StackError>(())
                && final(self).contents() == Self::popped(old(self).contents()),
            !Self::enough(old(self).contents(), 1) ==> res == Err::<(), StackError>(
                (StackError::NotEnoughOperands {
                    num_required: 1,
                    num_available: old(self).contents().len() as usize,
                }),
            ) && final(self).contents() == old(self).contents(),
    {
        match self.pop() {
            Ok(_) => Ok(()),
            Err(e) => Err(e),
        }
    }
}

/// The operand-application primitives: apply a caller-supplied pure
/// function to the top one or two elements.
///
/// The unary form replaces the top element and changes nothing else.  Both
/// binary forms consume the two topmost elements and leave exactly one
/// result on top; how the positions below collapse is fixed by the
/// representation's `collapsed` sequence.  The two binary forms differ only
/// in which operand of the supplied function the result conceptually
/// replaces — `first_arg` keeps the function's first (top) operand slot,
/// `second_arg` keeps the second — which callers use to direct
/// order-sensitive operations such as division.
pub trait InPlaceFnApplication: StackModel {
    /// The contents after the two topmost elements of a stack holding
    /// `pre` are consumed and replaced by the single result `r`.
    spec fn collapsed(pre: Seq<Self::Elem>, r: Self::Elem) -> Seq<Self::Elem>;

    /// Apply `unary_fn` to the top element, replacing it by the result.
    fn unary_fn_in_place<U: FnOnce(Self::Elem) -> Self::Elem>(&mut self, unary_fn: U) -> (res:
        Result<(), StackError>)
        requires
            Self::enough(old(self).contents(), 1) ==> call_requires(
                unary_fn,
                (old(self).contents().last(),),
            ),
        ensures
            Self::enough(old(self).contents(), 1) ==> res == Ok::<(), StackError>(())
                && (exists|r: Self::Elem|
                    #[trigger] call_ensures(unary_fn, (old(self).contents().last(),), r)
                    && final(self).contents()
                        == old(self).contents().update(old(self).contents().len() - 1, r)),
            !Self::enough(old(self).contents(), 1) ==> res == Err::<(), StackError>(
                (StackError::NotEnoughOperands {
                    num_required: 1,
                    num_available: old(self).contents().len() as usize,
                }),
            ) && final(self).contents() == old(self).contents(),
    ;

    /// Apply `binary_fn` to the top element (first argument) and the one
    /// below it (second argument), consuming both and leaving the result on
    /// top.
    fn binary_fn_in_place_first_arg<U: FnOnce(Self::Elem, Self::Elem) -> Self::Elem>(
        &mut self,
        binary_fn: U,
    ) -> (res: Result<(), StackError>)
        requires
            Self::enough(old(self).contents(), 2) ==> call_requires(
                binary_fn,
                (old(self).contents().last(), old(self).contents()[old(self).contents().len() - 2]),
            ),
        ensures
            Self::enough(old(self).contents(), 2) ==> res == Ok::<(), StackError>(())
                && (exists|r: Self::Elem|
                    #[trigger] call_ensures(
                        binary_fn,
                        (
                            old(self).contents().last(),
                            old(self).contents()[old(self).contents().len() - 2],
                        ),
                        r,
                    )
                    && final(self).contents() == Self::collapsed(old(self).contents(), r)),
            !Self::enough(old(self).contents(), 2) ==> res == Err::<(), StackError>(
                (StackError::NotEnoughOperands {
                    num_required: 2,
                    num_available: old(self).contents().len() as usize,
                }),
            ) && final(self).contents() == old(self).contents(),
    ;

    /// Apply `binary_fn` to the top element (first argument) and the one
    /// below it (second argument), consuming both and leaving the result on
    /// top.
    fn binary_fn_in_place_second_arg<U: FnOnce(Self::Elem, Self::Elem) -> Self::Elem>(
        &mut self,
        binary_fn: U,
    ) -> (res: Result<(), StackError>)
        requires
            Self::enough(old(self).contents(), 2) ==> call_requires(
                binary_fn,
                (old(self).contents().last(), old(self).contents()[old(self).contents().len() - 2]),
            ),
        ensures
            Self::enough(old(self).contents(), 2) ==> res == Ok::<(), StackError>(())
                && (exists|r: Self::Elem|
                    #[trigger] call_ensures(
                        binary_fn,
                        (
                            old(self).contents().last(),
                            old(self).contents()[old(self).contents().len() - 2],
                        ),
                        r,
                    )
                    && final(self).contents() == Self::collapsed(old(self).contents(), r)),
            !Self::enough(old(self).contents(), 2) ==> res == Err::<(), StackError>(
                (StackError::NotEnoughOperands {
                    num_required: 2,
                    num_available: old(self).contents().len() as usize,
                }),
            ) && final(self).contents() == old(self).contents(),
    ;
}

} // verus!
