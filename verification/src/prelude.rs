//! The items a typical user needs: the two stack types, the error type,
//! and the operation traits whose methods they call.

pub use crate::classic::ClassicStack;
pub use crate::dynamic_sized::DynamicSizedStack;
pub use crate::error::StackError;
pub use crate::float_ops::FloatMathOperations;
pub use crate::math_ops::BasicMathOperations;
pub use crate::stack_traits::BasicStackOperations;
pub use crate::stack_traits::InPlaceFnApplication;
