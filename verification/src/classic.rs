//! The classic calculator stack: exactly four registers named X, Y, Z and
//! T, where X is the top.  It is always full, so every operation succeeds;
//! operations that consume operands copy the T register downward, which is
//! how a four-register stack simulates an unbounded one.

use vstd::prelude::*;

use crate::element::{BasicMathElement, FloatMathElement, ZeroElement};
use crate::error::StackError;
use crate::float_ops::{FloatMathOperations, LogExpOperations, TrigOperations};
use crate::math_ops::BasicMathOperations;
use crate::shape::{rotated_down, rotated_up, swapped};
use crate::stack_traits::{BasicStackOperations, InPlaceFnApplication, StackModel};

verus! {

/// A stack of exactly four registers.  Viewed as a sequence it is
/// `[t, z, y, x]`: the T register at the bottom, the X register on top.
#[derive(Debug)]
pub struct ClassicStack<T> {
    x: T,
    y: T,
    z: T,
    t: T,
}

impl<T> View for ClassicStack<T> {
    type V = Seq<T>;

    closed spec fn view(&self) -> Seq<T> {
        seq![self.t, self.z, self.y, self.x]
    }
}

impl<T> ClassicStack<T> {
    /// Create a stack holding the given register values.
    pub fn new(x: T, y: T, z: T, t: T) -> (stack: Self)
        ensures
            stack@ == seq![t, z, y, x],
    {
        ClassicStack { x, y, z, t }
    }

    /// The X register: the top of the stack.
    pub fn x(&self) -> (r: &T)
        ensures
            *r == self@[3],
    {
        &self.x
    }

    /// The Y register: the second position from the top.
    pub fn y(&self) -> (r: &T)
        ensures
            *r == self@[2],
    {
        &self.y
    }

    /// The Z register: the third position from the top.
    pub fn z(&self) -> (r: &T)
        ensures
            *r == self@[1],
    {
        &self.z
    }

    /// The T register: the bottom of the stack.
    pub fn t(&self) -> (r: &T)
        ensures
            *r == self@[0],
    {
        &self.t
    }
}

impl<T: ZeroElement> ClassicStack<T> {
    /// Create a stack with every register set to zero.
    pub fn new_zero() -> (stack: Self)
        ensures
            stack@ == seq![T::zero_spec(), T::zero_spec(), T::zero_spec(), T::zero_spec()],
    {
        ClassicStack {
            x: T::zero_elem(),
            y: T::zero_elem(),
            z: T::zero_elem(),
            t: T::zero_elem(),
        }
    }
}

impl<T> StackModel for ClassicStack<T> {
    type Elem = T;

    open spec fn contents(&self) -> Seq<T> {
        self@
    }

    /// The four registers are always occupied, so operands are always
    /// available.
    open spec fn enough(pre: Seq<T>, n: int) -> bool {
        true
    }
}

impl<T: ZeroElement + Copy> BasicStackOperations for ClassicStack<T> {
    /// Pushing shifts X toward T and discards the old T register.
    open spec fn pushed(pre: Seq<T>, value: T) -> Seq<T> {
        seq![pre[1], pre[2], pre[3], value]
    }

    /// Popping shifts Y, Z and T toward X and copies T into the vacated Z
    /// position, leaving T itself unchanged.
    open spec fn popped(pre: Seq<T>) -> Seq<T> {
        seq![pre[0], pre[0], pre[1], pre[2]]
    }

    /// Clearing sets every register to zero.
    open spec fn cleared(pre: Seq<T>) -> Seq<T> {
        seq![T::zero_spec(), T::zero_spec(), T::zero_spec(), T::zero_spec()]
    }

    fn rotate_up(&mut self) -> (res: Result<(), StackError>) {
        let prev_t = self.t;
        self.t = self.z;
        self.z = self.y;
        self.y = self.x;
        self.x = prev_t;
        proof {
            assert(self@ =~= rotated_up(old(self)@));
        }
        Ok(())
    }

    fn rotate_down(&mut self) -> (res: Result<(), StackError>) {
        let prev_x = self.x;
        self.x = self.y;
        self.y = self.z;
        self.z = self.t;
        self.t = prev_x;
        proof {
            assert(self@ =~= rotated_down(old(self)@));
        }
        Ok(())
    }

    fn swap(&mut self) -> (res: Result<(), StackError>) {
        let prev_x = self.x;
        self.x = self.y;
        self.y = prev_x;
        proof {
            assert(self@ =~= swapped(old(self)@));
        }
        Ok(())
    }

    fn pop(&mut self) -> (res: Result<T, StackError>) {
        let value = self.x;
        self.x = self.y;
        self.y = self.z;
        self.z = self.t;
        proof {
            assert(self@ =~= Self::popped(old(self)@));
        }
        Ok(value)
    }

    fn push(&mut self, value: T) -> (res: Result<(), StackError>) {
        self.t = self.z;
        self.z = self.y;
        self.y = self.x;
        self.x = value;
        proof {
            assert(self@ =~= Self::pushed(old(self)@, value));
        }
        Ok(())
    }

    fn clear(&mut self) -> (res: Result<(), StackError>) {
        self.x = T::zero_elem();
        self.y = T::zero_elem();
        self.z = T::zero_elem();
        self.t = T::zero_elem();
        proof {
            assert(self@ =~= Self::cleared(old(self)@));
        }
        Ok(())
    }
}

impl<T: Copy> InPlaceFnApplication for ClassicStack<T> {
    /// Consuming the top two registers shifts Z and T toward the top and
    /// copies T into the vacated Z position, as `pop` does.
    open spec fn collapsed(pre: Seq<T>, r: T) -> Seq<T> {
        seq![pre[0], pre[0], pre[1], r]
    }

    fn unary_fn_in_place<U: FnOnce(T) -> T>(&mut self, unary_fn: U) -> (res: Result<
        (),
        StackError,
    >) {
        self.x = unary_fn(self.x);
        proof {
            assert(self@ =~= old(self)@.update(old(self)@.len() - 1, self.x));
        }
        Ok(())
    }

    fn binary_fn_in_place_first_arg<U: FnOnce(T, T) -> T>(&mut self, binary_fn: U) -> (res: Result<
        (),
        StackError,
    >) {
        self.x = binary_fn(self.x, self.y);
        self.y = self.z;
        self.z = self.t;
        proof {
            assert(self@ =~= Self::collapsed(old(self)@, self.x));
        }
        Ok(())
    }

    fn binary_fn_in_place_second_arg<U: FnOnce(T, T) -> T>(&mut self, binary_fn: U) -> (res:
        Result<(), StackError>) {
        self.x = binary_fn(self.x, self.y);
        self.y = self.z;
        self.z = self.t;
        proof {
            assert(self@ =~= Self::collapsed(old(self)@, self.x));
        }
        Ok(())
    }
}

/// A classic stack holds exactly four registers for its entire lifetime:
/// it never grows and never shrinks.
pub proof fn lemma_classic_len_is_four<T>(stack: &ClassicStack<T>)
    ensures
        stack@.len() == 4,
{
}

/// Pushing a value and immediately popping returns that value and restores
/// the X, Y and Z registers.  The T register is the one exception: the push
/// discarded its old value, so the pop's T-duplication leaves the old Z
/// value there instead.
pub proof fn lemma_push_then_pop_classic<T: ZeroElement + Copy>(s: Seq<T>, value: T)
    requires
        s.len() == 4,
    ensures
        <ClassicStack<T> as BasicStackOperations>::pushed(s, value).last() == value,
        <ClassicStack<T> as BasicStackOperations>::popped(
            <ClassicStack<T> as BasicStackOperations>::pushed(s, value),
        ).subrange(1, 4) == s.subrange(1, 4),
        <ClassicStack<T> as BasicStackOperations>::popped(
            <ClassicStack<T> as BasicStackOperations>::pushed(s, value),
        )[0] == s[1],
{
    assert(<ClassicStack<T> as BasicStackOperations>::popped(
        <ClassicStack<T> as BasicStackOperations>::pushed(s, value),
    ).subrange(1, 4) =~= s.subrange(1, 4));
}

impl<T: BasicMathElement> BasicMathOperations for ClassicStack<T> {

}

impl<T: FloatMathElement> LogExpOperations for ClassicStack<T> {

}

impl<T: FloatMathElement> TrigOperations for ClassicStack<T> {

}

impl<T: FloatMathElement> FloatMathOperations for ClassicStack<T> {

}

} // verus!
