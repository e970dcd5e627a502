//! An RPN calculator register stack: two stack representations (a classic
//! four-register stack and a dynamically sized stack) behind one verified
//! operation contract, with arithmetic built generically on top.

pub mod classic;
pub mod dynamic_sized;
pub mod element;
pub mod error;
pub mod float_ops;
pub mod math_ops;
pub mod prelude;
pub mod shape;
pub mod stack_traits;

pub use crate::error::StackError;
