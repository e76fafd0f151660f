//! Shared strings and the heap that owns them.

use crate::handles::laws::lemma_deep_copy;
use crate::handles::model::{lemma_create_wf, lemma_duplicate_wf, lemma_release_wf};
use crate::handles::model::{HeapModel, SharedText};
use crate::handles::pointer::HandlePtr;
use crate::handles::slice::SliceStr;
use vstd::prelude::*;

verus! {

/// An owned, immutable, reference-counted string.
///
/// A shared string is made in a heap and stays there. Its text never
/// changes; its count is the number of references that callers hold on it,
/// and is at least one for as long as the string exists.
pub struct StringHandle {
    text: String,
    refs: usize,
}

impl View for StringHandle {
    type V = SharedText;

    closed spec fn view(&self) -> SharedText {
        SharedText { text: self.text@, refs: self.refs as nat }
    }
}

impl StringHandle {
    /// Moves `s` into the heap as a new shared string with one reference,
    /// and returns the handle that names it.
    ///
    /// The handle is valid until exactly one matching release with no
    /// duplication in between.
    pub fn from_string(heap: &mut StringHeap, s: String) -> (ptr: HandlePtr)
        requires
            old(heap)@.wf(),
        ensures
            final(heap)@ == old(heap)@.create(s@),
            final(heap)@.wf(),
            ptr@ == old(heap)@.fresh(),
            !old(heap)@.is_live(ptr@),
            final(heap)@.refs(ptr@) == 1,
            final(heap)@.text(ptr@) == s@,
    {
        proof {
            lemma_create_wf(heap@, s@);
        }
        heap.slots.push(Some(StringHandle { text: s, refs: 1 }));
        assert(heap@.cells =~= old(heap)@.create(s@).cells);
        HandlePtr::from_addr(heap.slots.len())
    }

    /// Copies the text of a borrowed view into the heap as a new shared
    /// string with one reference, and returns the handle that names it.
    ///
    /// The string owns its bytes: nothing that later happens to the memory
    /// behind the view reaches it.
    pub fn from_slice(heap: &mut StringHeap, slice: SliceStr) -> (ptr: HandlePtr)
        requires
            old(heap)@.wf(),
            slice@.is_valid(),
        ensures
            final(heap)@ == old(heap)@.create(slice@.text()),
            final(heap)@.wf(),
            ptr@ == old(heap)@.fresh(),
            !old(heap)@.is_live(ptr@),
            final(heap)@.refs(ptr@) == 1,
            final(heap)@.data(ptr@) == Some(slice@.bytes()),
    {
        proof {
            lemma_deep_copy(heap@, slice@);
        }
        let s = slice.as_str().to_string();
        Self::from_string(heap, s)
    }

    /// The text of this string.
    pub fn as_str(&self) -> (text: &str)
        ensures
            text@ == self@.text,
    {
        self.text.as_str()
    }

    /// The number of references held on this string.
    pub fn ref_count(&self) -> (refs: usize)
        ensures
            refs as nat == self@.refs,
    {
        self.refs
    }
}

impl core::ops::Deref for StringHandle {
    type Target = String;

    fn deref(&self) -> (text: &String)
        ensures
            text@ == self@.text,
    {
        &self.text
    }
}

/// The heap of shared strings.
///
/// The heap owns every shared string and is the only place where one is
/// made, counted and reclaimed. Addresses are issued in order from one and
/// never again, so a handle names the same string for as long as it names
/// any.
pub struct StringHeap {
    slots: Vec<Option<StringHandle>>,
    reclaimed: usize,
}

impl View for StringHeap {
    type V = HeapModel;

    closed spec fn view(&self) -> HeapModel {
        HeapModel {
            cells: Map::new(
                |a: nat| 1 <= a <= self.slots@.len() && self.slots@[a - 1] is Some,
                |a: nat| self.slots@[a - 1]->0@,
            ),
            issued: self.slots@.len(),
            reclaimed: self.reclaimed as nat,
        }
    }
}

impl StringHeap {
    /// A heap that holds nothing.
    pub fn new() -> (heap: StringHeap)
        ensures
            heap@ == HeapModel::empty(),
            heap@.wf(),
    {
        let heap = StringHeap { slots: Vec::new(), reclaimed: 0 };
        assert(heap@.cells =~= Map::empty());
        heap
    }

    /// Whether `ptr` names a string that has not been reclaimed.
    pub fn is_live(&self, ptr: HandlePtr) -> (live: bool)
        ensures
            live == self@.is_live(ptr@),
    {
        let a = ptr.addr();
        a >= 1 && a <= self.slots.len() && self.slots[a - 1].is_some()
    }

    /// The null handle names no string.
    pub proof fn lemma_null_is_not_live(&self)
        ensures
            !self@.is_live(0),
    {
    }

    /// The string that `ptr` names, if it has not been reclaimed.
    pub fn get(&self, ptr: HandlePtr) -> (handle: Option<&StringHandle>)
        ensures
            handle is Some <==> self@.is_live(ptr@),
            handle matches Some(h) ==> h@ == self@.cells[ptr@],
    {
        let a = ptr.addr();
        if a >= 1 && a <= self.slots.len() {
            self.slots[a - 1].as_ref()
        } else {
            None
        }
    }

    /// The number of strings created in this heap so far.
    pub fn issued(&self) -> (n: usize)
        ensures
            n as nat == self@.issued,
    {
        self.slots.len()
    }

    /// The number of strings reclaimed by this heap so far.
    pub fn reclaimed(&self) -> (n: usize)
        ensures
            n as nat == self@.reclaimed,
    {
        self.reclaimed
    }

    /// Adds a reference to the string that `ptr` names.
    pub(crate) fn duplicate(&mut self, ptr: HandlePtr)
        requires
            old(self)@.wf(),
            old(self)@.refs(ptr@) < usize::MAX,
        ensures
            final(self)@ == old(self)@.duplicate(ptr@),
            final(self)@.wf(),
    {
        proof {
            lemma_duplicate_wf(self@, ptr@);
        }
        let a = ptr.addr();
        if a >= 1 && a <= self.slots.len() {
            match &mut self.slots[a - 1] {
                Some(h) => {
                    h.refs = h.refs + 1;
                },
                None => {},
            }
        }
        assert(self@.cells =~= old(self)@.duplicate(ptr@).cells);
    }

    /// Drops a reference to the string that `ptr` names, and reclaims the
    /// string when that was the last one.
    pub(crate) fn release(&mut self, ptr: HandlePtr)
        requires
            old(self)@.wf(),
        ensures
            final(self)@ == old(self)@.release(ptr@),
            final(self)@.wf(),
    {
        proof {
            lemma_release_wf(self@, ptr@);
        }
        let a = ptr.addr();
        if a >= 1 && a <= self.slots.len() {
            let last = match &mut self.slots[a - 1] {
                Some(h) => {
                    if h.refs > 1 {
                        h.refs = h.refs - 1;
                        false
                    } else {
                        true
                    }
                },
                None => false,
            };
            if last {
                self.slots[a - 1] = None;
                self.reclaimed = self.reclaimed + 1;
            }
        }
        assert(self@.cells =~= old(self)@.release(ptr@).cells);
    }
}

} // verus!
