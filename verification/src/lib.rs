//! Exchange of UTF-8 text across a foreign-function boundary.
//!
//! Two representations of a string cross the boundary: an owned,
//! reference-counted, immutable string that callers name by an opaque
//! handle, and a borrowed view of bytes that stay in the caller's memory.
//! Neither side ever frees what it does not own, frees anything twice, or
//! reads what was freed: the module [`handles`] holds the two
//! representations, the operations that mediate every access to them, and
//! the proofs that the operations keep that promise.

pub mod handles;
