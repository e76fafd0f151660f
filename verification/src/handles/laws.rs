//! Laws of the ownership protocol, proved of the model that the contracts of
//! the boundary operations speak of.

use crate::handles::model::{balance, HeapModel, SliceModel};
use vstd::prelude::*;
use vstd::utf8::*;

verus! {

/// Length consistency: the size reported for a string just created is the
/// number of bytes of its UTF-8 encoding, not the number of its characters.
pub proof fn lemma_length_consistency(m: HeapModel, text: Seq<char>)
    ensures
        m.create(text).size(m.fresh()) == encode_utf8(text).len(),
        m.create(text).data(m.fresh()) == Some(encode_utf8(text)),
        m.create(text).text(m.fresh()) == text,
{
}

/// Round trip: the view of a text, read back, is that text.
pub proof fn lemma_view_round_trip(text: Seq<char>)
    ensures
        SliceModel::of_text(text).is_valid(),
        SliceModel::of_text(text).text() == text,
        SliceModel::of_text(text).bytes() == encode_utf8(text),
{
    let bytes = encode_utf8(text);
    encode_utf8_valid_utf8(text);
    encode_utf8_decode_utf8(text);
    assert(bytes.subrange(0, bytes.len() as int) =~= bytes);
}

/// Empty views: a view with a null data pointer, and one with a zero length,
/// can always be read, and both name the empty string.
pub proof fn lemma_empty_view(view: SliceModel)
    requires
        view.data is None || view.size == 0,
    ensures
        view.is_valid(),
        view.text() == Seq::<char>::empty(),
        view.bytes() == Seq::<u8>::empty(),
{
}

/// Deep copy: the string created from a view holds the bytes that the view
/// named when it was read. They are the string's own from then on.
pub proof fn lemma_deep_copy(m: HeapModel, view: SliceModel)
    requires
        view.is_valid(),
    ensures
        m.create(view.text()).data(m.fresh()) == Some(view.bytes()),
        m.create(view.text()).size(m.fresh()) == view.bytes().len(),
        m.create(view.text()).refs(m.fresh()) == 1,
{
    if !view.is_empty() {
        decode_utf8_encode_utf8(view.bytes());
    }
}

/// Reference counting: a string is created with one reference; after a
/// duplication it has two and reads as before; the first of two releases
/// leaves it readable, and the second reclaims it.
pub proof fn lemma_reference_counting(m: HeapModel, text: Seq<char>)
    requires
        m.wf(),
    ensures
        ({
            let h = m.fresh();
            let created = m.create(text);
            let shared = created.duplicate(h);
            let once = shared.release(h);
            let twice = once.release(h);
            &&& created.refs(h) == 1
            &&& shared.refs(h) == 2
            &&& shared.data(h) == created.data(h)
            &&& shared.size(h) == created.size(h)
            &&& once == created
            &&& !twice.is_live(h)
            &&& twice.cells == m.cells
            &&& twice.reclaimed == m.reclaimed + 1
        }),
{
    let h = m.fresh();
    let created = m.create(text);
    let shared = created.duplicate(h);
    let once = shared.release(h);
    assert(once.cells =~= created.cells);
}

/// Null safety: on the null handle, duplication and release change nothing,
/// there is no buffer to read, and the size is zero.
pub proof fn lemma_null_safety(m: HeapModel)
    requires
        m.wf(),
    ensures
        !m.is_live(0),
        m.duplicate(0) == m,
        m.release(0) == m,
        m.data(0) is None,
        m.size(0) == 0,
{
}

/// Liveness: in a well-formed heap the strings that can be read are those
/// with at least one reference, and the null handle is not among them.
pub proof fn lemma_live_is_referenced(m: HeapModel, a: nat)
    requires
        m.wf(),
    ensures
        m.is_live(a) <==> m.refs(a) >= 1,
        m.is_live(a) <==> m.data(a) is Some,
        m.is_live(a) ==> a != 0 && a <= m.issued,
        m.data(a) matches Some(bytes) ==> valid_utf8(bytes) && bytes.len() == m.size(a)
            && decode_utf8(bytes) == m.text(a),
{
    if m.is_live(a) {
        encode_utf8_valid_utf8(m.text(a));
        encode_utf8_decode_utf8(m.text(a));
    }
}

/// Counting: duplication adds exactly one reference and release removes
/// exactly one; a string is reclaimed by the release that finds it with one
/// reference, and by no other operation.
pub proof fn lemma_count_transitions(m: HeapModel, a: nat)
    requires
        m.wf(),
        m.is_live(a),
    ensures
        m.duplicate(a).refs(a) == m.refs(a) + 1,
        m.duplicate(a).reclaimed == m.reclaimed,
        m.release(a).refs(a) == m.refs(a) - 1,
        m.release(a).is_live(a) <==> m.refs(a) > 1,
        m.refs(a) == 1 ==> m.release(a).reclaimed == m.reclaimed + 1,
        m.refs(a) != 1 ==> m.release(a).reclaimed == m.reclaimed,
{
}

/// Immutability: no operation changes the text of a string that is live
/// before and after it, and only the release of a string can end its life.
pub proof fn lemma_text_is_immutable(m: HeapModel, a: nat, b: nat, text: Seq<char>)
    requires
        m.wf(),
        m.is_live(a),
    ensures
        m.create(text).is_live(a) && m.create(text).text(a) == m.text(a),
        m.duplicate(b).is_live(a) && m.duplicate(b).text(a) == m.text(a),
        m.release(b).is_live(a) ==> m.release(b).text(a) == m.text(a),
        a != b ==> m.release(b).is_live(a),
        a != b ==> m.create(text).refs(a) == m.refs(a) && m.duplicate(b).refs(a) == m.refs(a)
            && m.release(b).refs(a) == m.refs(a),
{
}

/// No reuse: an address that was issued and reclaimed is never live again.
pub proof fn lemma_reclaimed_stays_reclaimed(m: HeapModel, a: nat, b: nat, text: Seq<char>)
    requires
        !m.is_live(a),
        a <= m.issued,
    ensures
        !m.create(text).is_live(a),
        !m.duplicate(b).is_live(a),
        !m.release(b).is_live(a),
{
}

/// `n` duplications of a live string add `n` references to it and change
/// nothing else.
pub proof fn lemma_duplicate_n(m: HeapModel, a: nat, n: nat)
    requires
        m.is_live(a),
    ensures
        m.duplicate_n(a, n) == m.with_refs(a, m.refs(a) + n),
    decreases n,
{
    if n == 0 {
        assert(m.cells =~= m.with_refs(a, m.refs(a)).cells);
    } else {
        lemma_duplicate_n(m, a, (n - 1) as nat);
        let prev = m.with_refs(a, (m.refs(a) + n - 1) as nat);
        assert(prev.duplicate(a).cells =~= m.with_refs(a, m.refs(a) + n).cells);
    }
}

/// `n` releases of a live string that has more than `n` references remove
/// `n` references from it and change nothing else.
pub proof fn lemma_release_n(m: HeapModel, a: nat, n: nat)
    requires
        m.is_live(a),
        n < m.refs(a),
    ensures
        m.release_n(a, n) == m.with_refs(a, (m.refs(a) - n) as nat),
    decreases n,
{
    if n == 0 {
        assert(m.cells =~= m.with_refs(a, m.refs(a)).cells);
    } else {
        lemma_release_n(m, a, (n - 1) as nat);
        let prev = m.with_refs(a, (m.refs(a) - n + 1) as nat);
        assert(prev.release(a).cells =~= m.with_refs(a, (m.refs(a) - n) as nat).cells);
    }
}

/// Balance: after a string is created and duplicated `n` times, any `k` of
/// the `n + 1` releases that are owed leave it live as long as `k <= n`, and
/// reclaim nothing; the last of them reclaims it, once.
///
/// Operations on one heap are applied one after the other, so this covers
/// every order in which callers may come to make them.
pub proof fn lemma_balanced_release(m: HeapModel, text: Seq<char>, n: nat, k: nat)
    requires
        m.wf(),
        k <= n,
    ensures
        ({
            let h = m.fresh();
            let shared = m.create(text).duplicate_n(h, n);
            &&& shared.refs(h) == n + 1
            &&& shared.reclaimed == m.reclaimed
            &&& shared.release_n(h, k).refs(h) == n + 1 - k
            &&& shared.release_n(h, k).text(h) == text
            &&& shared.release_n(h, k).reclaimed == m.reclaimed
            &&& !shared.release_n(h, n + 1).is_live(h)
            &&& shared.release_n(h, n + 1).reclaimed == m.reclaimed + 1
            &&& shared.release_n(h, n + 1).cells == m.cells
        }),
{
    let h = m.fresh();
    let created = m.create(text);
    let shared = created.duplicate_n(h, n);
    lemma_duplicate_n(created, h, n);
    lemma_release_n(shared, h, k);
    lemma_release_n(shared, h, n);
}

/// Interleaving: however duplications and releases of a live string follow
/// one another, as long as no reference is dropped that is not held, the
/// count is the count at the start plus the balance of the operations, the
/// text is as it was, and nothing is reclaimed. The release that then finds
/// one reference reclaims the string, once.
pub proof fn lemma_any_interleaving(m: HeapModel, a: nat, ops: Seq<bool>)
    requires
        m.is_live(a),
        forall|k: int| 0 <= k <= ops.len() ==> m.refs(a) + #[trigger] balance(ops.take(k)) >= 1,
    ensures
        m.apply(a, ops) == m.with_refs(a, (m.refs(a) + balance(ops)) as nat),
        m.apply(a, ops).refs(a) == m.refs(a) + balance(ops),
        m.apply(a, ops).text(a) == m.text(a),
        m.apply(a, ops).reclaimed == m.reclaimed,
        m.refs(a) + balance(ops) == 1 ==> !m.apply(a, ops).release(a).is_live(a),
        m.refs(a) + balance(ops) == 1 ==> m.apply(a, ops).release(a).reclaimed == m.reclaimed + 1,
        m.refs(a) + balance(ops) == 1 ==> m.apply(a, ops).release(a).cells == m.cells.remove(a),
    decreases ops.len(),
{
    assert(ops.take(ops.len() as int) =~= ops);
    if ops.len() == 0 {
        assert(m.cells =~= m.with_refs(a, m.refs(a)).cells);
    } else {
        let before = ops.drop_last();
        assert forall|k: int| 0 <= k <= before.len() implies m.refs(a) + #[trigger] balance(
            before.take(k),
        ) >= 1 by {
            assert(before.take(k) =~= ops.take(k));
        }
        lemma_any_interleaving(m, a, before);
        let held = m.with_refs(a, (m.refs(a) + balance(before)) as nat);
        let next = m.with_refs(a, (m.refs(a) + balance(ops)) as nat);
        if ops.last() {
            assert(held.duplicate(a).cells =~= next.cells);
        } else {
            assert(held.release(a).cells =~= next.cells);
        }
    }
}

} // verus!
