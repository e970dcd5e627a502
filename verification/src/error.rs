use vstd::prelude::*;

verus! {

/// Failure reported by a stack operation.
#[derive(Clone, Copy, Debug, PartialEq, Eq, Structural)]
pub enum StackError {
    /// An operation needed more occupied positions than the stack holds.
    /// `num_available < num_required` whenever this is returned.
    NotEnoughOperands { num_required: usize, num_available: usize },
    /// Reserved for future extension; no operation returns it.
    Other,
}

} // verus!
