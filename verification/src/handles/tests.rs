//! Entry points for the interoperability test suites of the host languages.
//!
//! A host-side suite drives these to see that text survives the boundary in
//! both directions: that a string made here arrives whole, and that a view
//! made there is read as it was written.

use crate::handles::ffi::{rust_string_dec_ref, rust_string_get_size};
use crate::handles::heap::{StringHandle, StringHeap};
use crate::handles::pointer::HandlePtr;
use crate::handles::slice::SliceStr;
use vstd::prelude::*;
use vstd::string::StringExecFns;

verus! {

/// Creates a shared string with a fixed message in two scripts, and hands it
/// to the host, which is to release it.
pub fn vss_rust_interop_tests_string_from_rust(heap: &mut StringHeap) -> (ptr: HandlePtr)
    requires
        old(heap)@.wf(),
    ensures
        final(heap)@ == old(heap)@.create(
            "This is message from Rust. Это сообщение из Rust."@,
        ),
        final(heap)@.wf(),
        ptr@ == old(heap)@.fresh(),
{
    let result = String::from_str("This is message from Rust. Это сообщение из Rust.");
    StringHandle::from_string(heap, result)
}

/// Greets the text of a view: creates a shared string that holds the text
/// with `Hello, ` before it, and hands it to the host, which is to release
/// it.
pub fn vss_rust_interop_tests_in_str_ret_string(
    heap: &mut StringHeap,
    s: SliceStr,
) -> (ptr: HandlePtr)
    requires
        old(heap)@.wf(),
        s@.is_valid(),
    ensures
        final(heap)@ == old(heap)@.create("Hello, "@ + s@.text()),
        final(heap)@.wf(),
        ptr@ == old(heap)@.fresh(),
{
    let mut result = String::from_str("Hello, ");
    result.append(s.as_str());
    StringHandle::from_string(heap, result)
}

/// Creates a shared string that holds `Hello World`.
pub fn vss_rust_interop_tests_create_handle(heap: &mut StringHeap) -> (ptr: HandlePtr)
    requires
        old(heap)@.wf(),
    ensures
        final(heap)@ == old(heap)@.create("Hello World"@),
        final(heap)@.wf(),
        ptr@ == old(heap)@.fresh(),
{
    let s = String::from_str("Hello World");
    StringHandle::from_string(heap, s)
}

/// The length in bytes of the string that `ptr` names, as the boundary
/// reports it.
pub fn vss_rust_interop_tests_get_size(heap: &StringHeap, ptr: HandlePtr) -> (size: usize)
    ensures
        size as nat == heap@.size(ptr@),
        ptr@ == 0 ==> size == 0,
{
    rust_string_get_size(heap, ptr)
}

/// Releases the reference that the host holds on the string that `ptr`
/// names.
pub fn vss_rust_interop_tests_destroy_handle(heap: &mut StringHeap, ptr: HandlePtr)
    requires
        old(heap)@.wf(),
    ensures
        final(heap)@ == old(heap)@.release(ptr@),
        final(heap)@.wf(),
        ptr@ == 0 ==> final(heap)@ == old(heap)@,
{
    rust_string_dec_ref(heap, ptr)
}

/// Whether a view names any text at all.
pub fn vss_rust_interop_tests_slice_input(slice: SliceStr) -> (nonempty: bool)
    requires
        slice@.is_valid(),
    ensures
        nonempty == (slice@.text().len() > 0),
{
    let s = slice.as_str();
    !s.is_empty()
}

} // verus!
