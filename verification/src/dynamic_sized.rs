//! The dynamically sized stack: a growable sequence of registers that may
//! legitimately be empty.  Operations that need more operands than the
//! stack holds fail with `NotEnoughOperands` and leave the stack untouched.

use vstd::prelude::*;

use crate::element::{BasicMathElement, FloatMathElement};
use crate::error::StackError;
use crate::float_ops::{FloatMathOperations, LogExpOperations, TrigOperations};
use crate::math_ops::BasicMathOperations;
use crate::shape::{rotated_down, rotated_up, swapped};
use crate::stack_traits::{BasicStackOperations, InPlaceFnApplication, StackModel};

verus! {

/// A stack holding any number of elements.  Viewed as a sequence, the last
/// element is the top.
#[derive(Debug)]
pub struct DynamicSizedStack<T> {
    container: Vec<T>,
}

impl<T> View for DynamicSizedStack<T> {
    type V = Seq<T>;

    closed spec fn view(&self) -> Seq<T> {
        self.container@
    }
}

impl<T> DynamicSizedStack<T> {
    /// Create a new empty stack.
    pub fn new() -> (stack: Self)
        ensures
            stack@ == Seq::<T>::empty(),
    {
        DynamicSizedStack { container: Vec::new() }
    }

    /// The number of elements currently held.
    pub fn len(&self) -> (n: usize)
        ensures
            n == self@.len(),
    {
        self.container.len()
    }

    /// Whether the stack holds no elements.
    pub fn is_empty(&self) -> (r: bool)
        ensures
            r <==> self@.len() == 0,
    {
        self.container.is_empty()
    }

    /// The element `idx` positions below the top: `get(0)` is the top,
    /// `get(1)` the one under it, and so on.  `None` when fewer than
    /// `idx + 1` elements are held.
    pub fn get(&self, idx: usize) -> (r: Option<&T>)
        ensures
            idx < self@.len() ==> (r matches Some(v) && *v == self@[self@.len() - 1 - idx]),
            idx >= self@.len() ==> r is None,
    {
        if idx < self.container.len() {
            let reverse_idx: usize = self.container.len() - 1 - idx;
            Some(&self.container[reverse_idx])
        } else {
            None
        }
    }
}

impl<T: Copy> DynamicSizedStack<T> {
    /// Create a stack holding the elements of `source`, the first element
    /// at the bottom and the last on top.
    pub fn clone_from_slice(source: &[T]) -> (stack: Self)
        ensures
            stack@ == source@,
    {
        DynamicSizedStack { container: vstd::slice::slice_to_vec(source) }
    }
}

impl<T> Default for DynamicSizedStack<T> {
    /// The default stack is empty.
    fn default() -> (stack: Self)
        ensures
            stack@ == Seq::<T>::empty(),
    {
        DynamicSizedStack { container: Vec::new() }
    }
}

impl<T> StackModel for DynamicSizedStack<T> {
    type Elem = T;

    open spec fn contents(&self) -> Seq<T> {
        self@
    }

    /// Operands are available only while they are actually held.
    open spec fn enough(pre: Seq<T>, n: int) -> bool {
        pre.len() >= n
    }
}

impl<T: Copy> BasicStackOperations for DynamicSizedStack<T> {
    /// Pushing appends on top; nothing is discarded.
    open spec fn pushed(pre: Seq<T>, value: T) -> Seq<T> {
        pre.push(value)
    }

    /// Popping removes the top; nothing is duplicated.
    open spec fn popped(pre: Seq<T>) -> Seq<T> {
        pre.drop_last()
    }

    /// Clearing removes every element.
    open spec fn cleared(pre: Seq<T>) -> Seq<T> {
        Seq::<T>::empty()
    }

    fn rotate_up(&mut self) -> (res: Result<(), StackError>) {
        if self.container.len() >= 2 {
            let bottom = self.container.remove(0);
            self.container.push(bottom);
            proof {
                assert(self@ =~= rotated_up(old(self)@));
            }
        } else {
            proof {
                assert(self@ =~= rotated_up(old(self)@));
            }
        }
        Ok(())
    }

    fn rotate_down(&mut self) -> (res: Result<(), StackError>) {
        if self.container.len() >= 2 {
            let top_idx: usize = self.container.len() - 1;
            let top = self.container.remove(top_idx);
            self.container.insert(0, top);
            proof {
                assert(self@ =~= rotated_down(old(self)@));
            }
        } else {
            proof {
                assert(self@ =~= rotated_down(old(self)@));
            }
        }
        Ok(())
    }

    fn swap(&mut self) -> (res: Result<(), StackError>) {
        if self.container.len() >= 2 {
            let top_idx: usize = self.container.len() - 1;
            let second_idx: usize = self.container.len() - 2;
            let top = self.container[top_idx];
            let second = self.container[second_idx];
            self.container[top_idx] = second;
            self.container[second_idx] = top;
            proof {
                assert(self@ =~= swapped(old(self)@));
            }
            Ok(())
        } else {
            Err(StackError::NotEnoughOperands { num_required: 2, num_available: self.container.len() })
        }
    }

    fn pop(&mut self) -> (res: Result<T, StackError>) {
        match self.container.pop() {
            Some(value) => {
                proof {
                    assert(self@ =~= Self::popped(old(self)@));
                }
                Ok(value)
            },
            None => Err(StackError::NotEnoughOperands { num_required: 1, num_available: 0 }),
        }
    }

    fn push(&mut self, value: T) -> (res: Result<(), StackError>) {
        self.container.push(value);
        Ok(())
    }

    fn clear(&mut self) -> (res: Result<(), StackError>) {
        self.container.clear();
        Ok(())
    }
}

impl<T: Copy> InPlaceFnApplication for DynamicSizedStack<T> {
    /// Consuming the top two elements shrinks the stack by one: only the
    /// result remains, on top of the untouched elements below.
    open spec fn collapsed(pre: Seq<T>, r: T) -> Seq<T> {
        pre.drop_last().drop_last().push(r)
    }

    fn unary_fn_in_place<U: FnOnce(T) -> T>(&mut self, unary_fn: U) -> (res: Result<
        (),
        StackError,
    >) {
        if self.container.len() >= 1 {
            let top_idx: usize = self.container.len() - 1;
            let result = unary_fn(self.container[top_idx]);
            self.container[top_idx] = result;
            proof {
                assert(self@ =~= old(self)@.update(old(self)@.len() - 1, result));
            }
            Ok(())
        } else {
            Err(StackError::NotEnoughOperands { num_required: 1, num_available: 0 })
        }
    }

    fn binary_fn_in_place_first_arg<U: FnOnce(T, T) -> T>(&mut self, binary_fn: U) -> (res: Result<
        (),
        StackError,
    >) {
        if self.container.len() >= 2 {
            let top = self.container[self.container.len() - 1];
            let second = self.container[self.container.len() - 2];
            let result = binary_fn(top, second);
            let new_len: usize = self.container.len() - 2;
            self.container.truncate(new_len);
            self.container.push(result);
            proof {
                assert(self@ =~= Self::collapsed(old(self)@, result));
            }
            Ok(())
        } else {
            Err(StackError::NotEnoughOperands { num_required: 2, num_available: self.container.len() })
        }
    }

    fn binary_fn_in_place_second_arg<U: FnOnce(T, T) -> T>(&mut self, binary_fn: U) -> (res:
        Result<(), StackError>) {
        if self.container.len() >= 2 {
            let top = self.container[self.container.len() - 1];
            let second = self.container[self.container.len() - 2];
            let result = binary_fn(top, second);
            let new_len: usize = self.container.len() - 2;
            self.container.truncate(new_len);
            self.container.push(result);
            proof {
                assert(self@ =~= Self::collapsed(old(self)@, result));
            }
            Ok(())
        } else {
            Err(StackError::NotEnoughOperands { num_required: 2, num_available: self.container.len() })
        }
    }
}

/// Pushing a value and immediately popping returns that value and leaves
/// every other position of the dynamically sized stack exactly as it was.
pub proof fn lemma_push_then_pop_dynamic<T: Copy>(s: Seq<T>, value: T)
    ensures
        <DynamicSizedStack<T> as BasicStackOperations>::pushed(s, value).last() == value,
        <DynamicSizedStack<T> as BasicStackOperations>::popped(
            <DynamicSizedStack<T> as BasicStackOperations>::pushed(s, value),
        ) == s,
{
    assert(s.push(value).drop_last() =~= s);
}

impl<T: BasicMathElement> BasicMathOperations for DynamicSizedStack<T> {

}

impl<T: FloatMathElement> LogExpOperations for DynamicSizedStack<T> {

}

impl<T: FloatMathElement> TrigOperations for DynamicSizedStack<T> {

}

impl<T: FloatMathElement> FloatMathOperations for DynamicSizedStack<T> {

}

} // verus!
