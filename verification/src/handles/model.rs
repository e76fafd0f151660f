//! The mathematical model that the contracts of this crate speak of.
//!
//! A heap of shared strings is a finite map from addresses to shared texts,
//! together with two counters: how many addresses were ever issued, and how
//! many strings were reclaimed. Every operation of the boundary is a
//! function on this model.

use vstd::prelude::*;
use vstd::utf8::*;

verus! {

/// A shared string: its text, and the number of references held on it.
pub struct SharedText {
    pub text: Seq<char>,
    pub refs: nat,
}

impl SharedText {
    /// The bytes of the buffer: the UTF-8 encoding of the text.
    pub open spec fn bytes(self) -> Seq<u8> {
        encode_utf8(self.text)
    }
}

/// A borrowed view: a data pointer and a length in bytes.
pub struct SliceModel {
    /// The caller's memory at the data pointer; none for the null pointer.
    pub data: Option<Seq<u8>>,
    /// The number of bytes of it that make up the text.
    pub size: nat,
}

impl SliceModel {
    /// The view of a text in its own buffer.
    pub open spec fn of_text(text: Seq<char>) -> SliceModel {
        SliceModel { data: Some(encode_utf8(text)), size: encode_utf8(text).len() }
    }

    /// A null data pointer or a zero length denotes the empty string.
    pub open spec fn is_empty(self) -> bool {
        self.data is None || self.size == 0
    }

    /// What the caller promises of a view: the bytes it names are in the
    /// caller's memory and are valid UTF-8.
    pub open spec fn is_valid(self) -> bool {
        !self.is_empty() ==> self.size <= self.data->0.len() && valid_utf8(
            self.data->0.subrange(0, self.size as int),
        )
    }

    /// The bytes that the view names.
    pub open spec fn bytes(self) -> Seq<u8> {
        if self.is_empty() {
            Seq::empty()
        } else {
            self.data->0.subrange(0, self.size as int)
        }
    }

    /// The text that the view names.
    pub open spec fn text(self) -> Seq<char> {
        if self.is_empty() {
            Seq::empty()
        } else {
            decode_utf8(self.bytes())
        }
    }
}

/// A heap of shared strings.
pub struct HeapModel {
    /// The live strings, by address.
    pub cells: Map<nat, SharedText>,
    /// The number of addresses issued so far; they are `1..=issued`.
    pub issued: nat,
    /// The number of strings reclaimed so far.
    pub reclaimed: nat,
}

impl HeapModel {
    /// The heap that holds nothing and has issued no address.
    pub open spec fn empty() -> HeapModel {
        HeapModel { cells: Map::empty(), issued: 0, reclaimed: 0 }
    }

    /// Every live address was issued, every live string is referenced, and
    /// every issued address is either live or reclaimed.
    pub open spec fn wf(self) -> bool {
        &&& self.cells.dom().finite()
        &&& self.cells.dom().len() + self.reclaimed == self.issued
        &&& forall|a: nat| #[trigger]
            self.cells.dom().contains(a) ==> 1 <= a <= self.issued && self.cells[a].refs >= 1
    }

    /// Whether `a` names a string that has not been reclaimed.
    pub open spec fn is_live(self, a: nat) -> bool {
        self.cells.dom().contains(a)
    }

    /// The reference count of `a`; zero when `a` is not live.
    pub open spec fn refs(self, a: nat) -> nat {
        if self.is_live(a) {
            self.cells[a].refs
        } else {
            0
        }
    }

    /// The text of `a`; empty when `a` is not live.
    pub open spec fn text(self, a: nat) -> Seq<char> {
        if self.is_live(a) {
            self.cells[a].text
        } else {
            Seq::empty()
        }
    }

    /// The buffer that a read of `a` observes; none when `a` is not live.
    pub open spec fn data(self, a: nat) -> Option<Seq<u8>> {
        if self.is_live(a) {
            Some(self.cells[a].bytes())
        } else {
            None
        }
    }

    /// The length in bytes of `a`; zero when `a` is not live.
    pub open spec fn size(self, a: nat) -> nat {
        if self.is_live(a) {
            self.cells[a].bytes().len()
        } else {
            0
        }
    }

    /// The address that the next creation returns.
    pub open spec fn fresh(self) -> nat {
        self.issued + 1
    }

    /// Creation: a new string with one reference, at a fresh address.
    pub open spec fn create(self, text: Seq<char>) -> HeapModel {
        HeapModel {
            cells: self.cells.insert(self.fresh(), SharedText { text, refs: 1 }),
            issued: self.issued + 1,
            reclaimed: self.reclaimed,
        }
    }

    /// Duplication: one more reference on a live string; nothing otherwise.
    pub open spec fn duplicate(self, a: nat) -> HeapModel {
        if self.is_live(a) {
            HeapModel {
                cells: self.cells.insert(
                    a,
                    SharedText { text: self.cells[a].text, refs: self.cells[a].refs + 1 },
                ),
                issued: self.issued,
                reclaimed: self.reclaimed,
            }
        } else {
            self
        }
    }

    /// Release: one reference fewer on a live string, which is reclaimed
    /// when that was its last; nothing otherwise.
    pub open spec fn release(self, a: nat) -> HeapModel {
        if !self.is_live(a) {
            self
        } else if self.cells[a].refs == 1 {
            HeapModel {
                cells: self.cells.remove(a),
                issued: self.issued,
                reclaimed: self.reclaimed + 1,
            }
        } else {
            HeapModel {
                cells: self.cells.insert(
                    a,
                    SharedText {
                        text: self.cells[a].text,
                        refs: (self.cells[a].refs - 1) as nat,
                    },
                ),
                issued: self.issued,
                reclaimed: self.reclaimed,
            }
        }
    }

    /// `n` duplications of `a`, one after the other.
    pub open spec fn duplicate_n(self, a: nat, n: nat) -> HeapModel
        decreases n,
    {
        if n == 0 {
            self
        } else {
            self.duplicate_n(a, (n - 1) as nat).duplicate(a)
        }
    }

    /// `n` releases of `a`, one after the other.
    pub open spec fn release_n(self, a: nat, n: nat) -> HeapModel
        decreases n,
    {
        if n == 0 {
            self
        } else {
            self.release_n(a, (n - 1) as nat).release(a)
        }
    }

    /// The operations `ops` on `a`, one after the other: `true` is a
    /// duplication, `false` a release.
    pub open spec fn apply(self, a: nat, ops: Seq<bool>) -> HeapModel
        decreases ops.len(),
    {
        if ops.len() == 0 {
            self
        } else if ops.last() {
            self.apply(a, ops.drop_last()).duplicate(a)
        } else {
            self.apply(a, ops.drop_last()).release(a)
        }
    }

    /// This heap with the reference count of the live string `a` set to
    /// `refs`.
    pub open spec fn with_refs(self, a: nat, refs: nat) -> HeapModel {
        HeapModel {
            cells: self.cells.insert(a, SharedText { text: self.cells[a].text, refs }),
            issued: self.issued,
            reclaimed: self.reclaimed,
        }
    }
}

/// The references that the operations `ops` add, less those that they drop:
/// `true` is a duplication, `false` a release.
pub open spec fn balance(ops: Seq<bool>) -> int
    decreases ops.len(),
{
    if ops.len() == 0 {
        0
    } else if ops.last() {
        balance(ops.drop_last()) + 1
    } else {
        balance(ops.drop_last()) - 1
    }
}

/// Creation keeps a heap well formed.
pub proof fn lemma_create_wf(m: HeapModel, text: Seq<char>)
    requires
        m.wf(),
    ensures
        m.create(text).wf(),
        !m.is_live(m.fresh()),
{
}

/// Duplication keeps a heap well formed.
pub proof fn lemma_duplicate_wf(m: HeapModel, a: nat)
    requires
        m.wf(),
    ensures
        m.duplicate(a).wf(),
{
}

/// Release keeps a heap well formed.
pub proof fn lemma_release_wf(m: HeapModel, a: nat)
    requires
        m.wf(),
    ensures
        m.release(a).wf(),
{
}

} // verus!
