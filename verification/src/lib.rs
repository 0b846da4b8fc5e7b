//! A vector that keeps its elements in a slice lent by the caller.
//!
//! [`SliceVec`] borrows a slice for its whole life and treats the leading part
//! of it as a growable sequence: it can push, pop, truncate and swap-remove,
//! but never grows beyond the slice and never allocates. What it writes is
//! still in the slice once the `SliceVec` is gone.
//!
//! [`State`] is the mathematical picture of such a vector: the contract of
//! every operation says what becomes of it, and the laws proved of it say what
//! that means for the elements. [`Op`] names the operations, so that a law can
//! speak of any sequence of them.

pub mod slice_vec;
pub mod state;
mod std_specs;

pub use slice_vec::SliceVec;
pub use state::{Op, State};
