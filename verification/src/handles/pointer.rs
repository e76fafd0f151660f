//! The opaque handle: an address that the foreign side stores and passes
//! back, and never interprets.

use vstd::prelude::*;

verus! {

/// An opaque, nullable handle to a shared string.
///
/// A handle is an address. Address zero is the null handle; every other
/// address names at most one shared string over the whole life of a heap.
#[derive(Clone, Copy, Debug, PartialEq, Eq, Structural)]
pub struct HandlePtr {
    addr: usize,
}

impl View for HandlePtr {
    type V = nat;

    closed spec fn view(&self) -> nat {
        self.addr as nat
    }
}

impl HandlePtr {
    /// The null handle.
    pub fn null() -> (ptr: HandlePtr)
        ensures
            ptr@ == 0,
    {
        HandlePtr { addr: 0 }
    }

    /// The handle with the given address.
    pub fn from_addr(addr: usize) -> (ptr: HandlePtr)
        ensures
            ptr@ == addr as nat,
    {
        HandlePtr { addr }
    }

    /// The address of this handle.
    pub fn addr(&self) -> (addr: usize)
        ensures
            addr as nat == self@,
    {
        self.addr
    }

    /// Whether this is the null handle.
    pub fn is_null(&self) -> (null: bool)
        ensures
            null == (self@ == 0),
    {
        self.addr == 0
    }
}

} // verus!
