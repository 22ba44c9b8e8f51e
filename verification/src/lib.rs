//! A small numeric toolkit: wrapping 32-bit integer arithmetic, decimal
//! rendering of integers, and the line-oriented reports built from them.
//!
//! Every executable function carries a contract over mathematical integers
//! and character sequences, and every contract is proved.

pub mod arith;
pub mod decimal;
pub mod report;
