//! The boundary operations on shared strings.
//!
//! Every access that the foreign side makes to a shared string goes through
//! one of these four functions. The two that change a reference count are
//! the only ones that do: a string is reclaimed by the release that drops
//! its last reference, and by nothing else.

use crate::handles::heap::StringHeap;
use crate::handles::pointer::HandlePtr;
use vstd::prelude::*;

verus! {

/// The buffer of the string that `ptr` names: its UTF-8 bytes, with no
/// terminator. None for the null handle.
///
/// The borrow of the heap stands for the reference that the caller holds:
/// while the buffer is read, no reference can be released.
pub fn rust_string_get_data<'a>(heap: &'a StringHeap, ptr: HandlePtr) -> (data: Option<&'a [u8]>)
    ensures
        data is Some <==> heap@.is_live(ptr@),
        data matches Some(bytes) ==> heap@.data(ptr@) == Some(bytes@),
        ptr@ == 0 ==> data is None,
{
    proof {
        heap.lemma_null_is_not_live();
    }
    if ptr.is_null() {
        return None;
    }
    match heap.get(ptr) {
        Some(handle) => Some(handle.as_str().as_bytes()),
        None => None,
    }
}

/// The length in bytes of the string that `ptr` names. Zero for the null
/// handle.
pub fn rust_string_get_size(heap: &StringHeap, ptr: HandlePtr) -> (size: usize)
    ensures
        size as nat == heap@.size(ptr@),
        ptr@ == 0 ==> size == 0,
{
    proof {
        heap.lemma_null_is_not_live();
    }
    if ptr.is_null() {
        return 0;
    }
    match heap.get(ptr) {
        Some(handle) => handle.as_str().as_bytes().len(),
        None => 0,
    }
}

/// Adds a reference to the string that `ptr` names. Nothing happens for the
/// null handle.
pub fn rust_string_inc_ref(heap: &mut StringHeap, ptr: HandlePtr)
    requires
        old(heap)@.wf(),
        old(heap)@.refs(ptr@) < usize::MAX,
    ensures
        final(heap)@ == old(heap)@.duplicate(ptr@),
        final(heap)@.wf(),
        ptr@ == 0 ==> final(heap)@ == old(heap)@,
        old(heap)@.is_live(ptr@) ==> final(heap)@.refs(ptr@) == old(heap)@.refs(ptr@) + 1,
{
    if ptr.is_null() {
        return;
    }
    heap.duplicate(ptr);
}

/// Drops a reference to the string that `ptr` names, and reclaims the string
/// when that was the last one. Nothing happens for the null handle.
pub fn rust_string_dec_ref(heap: &mut StringHeap, ptr: HandlePtr)
    requires
        old(heap)@.wf(),
    ensures
        final(heap)@ == old(heap)@.release(ptr@),
        final(heap)@.wf(),
        ptr@ == 0 ==> final(heap)@ == old(heap)@,
        old(heap)@.is_live(ptr@) ==> final(heap)@.refs(ptr@) == old(heap)@.refs(ptr@) - 1,
        final(heap)@.is_live(ptr@) <==> old(heap)@.refs(ptr@) > 1,
        old(heap)@.refs(ptr@) == 1 ==> final(heap)@.reclaimed == old(heap)@.reclaimed + 1,
        old(heap)@.refs(ptr@) != 1 ==> final(heap)@.reclaimed == old(heap)@.reclaimed,
{
    if ptr.is_null() {
        return;
    }
    heap.release(ptr);
}

} // verus!
