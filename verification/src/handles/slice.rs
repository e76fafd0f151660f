//! The borrowed view: foreign-owned bytes, read in place.

use crate::handles::laws::lemma_view_round_trip;
use crate::handles::model::SliceModel;
use vstd::prelude::*;
use vstd::slice::slice_subrange;
use vstd::utf8::*;

verus! {

/// A non-owning view of UTF-8 text in the caller's memory.
///
/// The view is a flat record of a data pointer and a length in bytes. It is
/// valid for the call that received it and owns nothing: the only way to
/// keep its text is to copy it into a shared string.
#[derive(Clone, Copy)]
pub struct SliceStr<'a> {
    data: Option<&'a [u8]>,
    size: usize,
}

impl<'a> View for SliceStr<'a> {
    type V = SliceModel;

    closed spec fn view(&self) -> SliceModel {
        SliceModel {
            data: match self.data {
                Some(bytes) => Some(bytes@),
                None => None,
            },
            size: self.size as nat,
        }
    }
}

/// `core::str::from_utf8`, with the error dropped. The contract claims what
/// the documentation of that function says: it succeeds on the byte slices
/// that are valid UTF-8 and on no others, and the string slice it returns is
/// the given bytes.
#[verifier::external_body]
fn str_from_utf8<'a>(bytes: &'a [u8]) -> (text: Option<&'a str>)
    ensures
        text is Some <==> valid_utf8(bytes@),
        text matches Some(t) ==> encode_utf8(t@) == bytes@,
{
    core::str::from_utf8(bytes).ok()
}

impl<'a> SliceStr<'a> {
    /// The view of a string slice.
    pub fn new(s: &'a str) -> (view: SliceStr<'a>)
        ensures
            view@ == SliceModel::of_text(s@),
            view@.is_valid(),
            view@.text() == s@,
    {
        proof {
            lemma_view_round_trip(s@);
        }
        let bytes = s.as_bytes();
        SliceStr { data: Some(bytes), size: bytes.len() }
    }

    /// The view with the given data pointer and length.
    pub fn from_raw_parts(data: Option<&'a [u8]>, size: usize) -> (view: SliceStr<'a>)
        ensures
            view@.size == size,
            data matches Some(bytes) ==> view@.data == Some(bytes@),
            data is None ==> view@.data is None,
    {
        SliceStr { data, size }
    }

    /// Whether the bytes that the view names are in the caller's memory and
    /// are valid UTF-8.
    pub fn is_valid(&self) -> (valid: bool)
        ensures
            valid == self@.is_valid(),
    {
        match self.data {
            None => true,
            Some(bytes) => {
                if self.size == 0 {
                    true
                } else if self.size > bytes.len() {
                    false
                } else {
                    str_from_utf8(slice_subrange(bytes, 0, self.size)).is_some()
                }
            },
        }
    }

    /// The text of the view, read in place.
    ///
    /// A null data pointer and a zero length both give the empty string.
    pub fn as_str(&self) -> (text: &'a str)
        requires
            self@.is_valid(),
        ensures
            text@ == self@.text(),
            encode_utf8(text@) == self@.bytes(),
            self@.is_empty() ==> text@.len() == 0,
    {
        broadcast use encode_utf8_decode_utf8;

        proof {
            reveal_strlit("");
        }
        match self.data {
            None => "",
            Some(bytes) => {
                if self.size == 0 {
                    ""
                } else {
                    match str_from_utf8(slice_subrange(bytes, 0, self.size)) {
                        Some(text) => text,
                        None => "",
                    }
                }
            },
        }
    }
}

} // verus!
