//! Owned string handles, borrowed string views, and the operations that
//! carry them across the boundary.
//!
//! A shared string lives in a [`StringHeap`] and is named by a
//! [`HandlePtr`], an address that means nothing outside the heap that issued
//! it. The heap issues every address once: the handle of a string that was
//! reclaimed names nothing from then on, and every operation treats it as it
//! treats the null handle. All reference counts change in [`ffi`], through
//! one function that adds a reference and one that drops it.
//!
//! A [`SliceStr`] is a view of bytes that the caller owns. It is read in
//! place during one call, and its text is kept only by copying it into a
//! shared string.
//!
//! The contracts speak of the mathematical values in [`model`]; the laws
//! that follow from them are proved in [`laws`].

pub mod ffi;
pub mod heap;
pub mod laws;
pub mod model;
pub mod pointer;
pub mod slice;
pub mod tests;

pub use heap::{StringHandle, StringHeap};
pub use pointer::HandlePtr;
pub use slice::SliceStr;
