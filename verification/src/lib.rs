//! A growable sequence with explicit length and capacity, and a stack built on it.
//!
//! [`DynamicSequence`] keeps its elements in one contiguous buffer and grows
//! that buffer by an amortizing policy when it runs out of room. [`Stack`]
//! owns one such sequence and works on its end.

pub mod cursor;
pub mod error;
pub mod growth;
pub mod laws;
pub mod sequence;
pub mod stack;

pub use crate::cursor::Cursor;
pub use crate::error::{OutOfRange, ReserveError};
pub use crate::sequence::DynamicSequence;
pub use crate::stack::Stack;
