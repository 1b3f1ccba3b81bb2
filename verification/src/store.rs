//! The document store as the core sees it: keys, bytes, and what a lookup
//! may answer.

use vstd::prelude::*;
use vstd::utf8::{decode_utf8, valid_utf8};

verus! {

/// What came of looking a key up in the document store.
#[derive(Debug, PartialEq, Eq)]
pub enum StoreReply {
    /// The store could not be read.
    Failed,
    /// The store holds nothing under the key.
    Absent,
    /// The bytes that the store holds under the key.
    Found(Vec<u8>),
}

/// A reply as plain values.
pub enum StoreReplyView {
    Failed,
    Absent,
    Found(Seq<u8>),
}

impl View for StoreReply {
    type V = StoreReplyView;

    open spec fn view(&self) -> StoreReplyView {
        match self {
            StoreReply::Failed => StoreReplyView::Failed,
            StoreReply::Absent => StoreReplyView::Absent,
            StoreReply::Found(bytes) => StoreReplyView::Found(bytes@),
        }
    }
}

/// The entries of a store after `bytes` were put under `key`: they replace
/// what was there, and every other entry stays.
pub open spec fn put(entries: Map<Seq<char>, Seq<u8>>, key: Seq<char>, bytes: Seq<u8>) -> Map<
    Seq<char>,
    Seq<u8>,
> {
    entries.insert(key, bytes)
}

/// What is put under a key is what a lookup of that key finds, whatever was
/// there before; a lookup of another key finds what it found before.
pub proof fn lookup_after_put(
    entries: Map<Seq<char>, Seq<u8>>,
    key: Seq<char>,
    bytes: Seq<u8>,
    other: Seq<char>,
)
    ensures
        lookup(put(entries, key, bytes), key) == StoreReplyView::Found(bytes),
        other != key ==> lookup(put(entries, key, bytes), other) == lookup(entries, other),
{
}

/// The reply of a store that holds `entries` and can be read.
pub open spec fn lookup(entries: Map<Seq<char>, Seq<u8>>, key: Seq<char>) -> StoreReplyView {
    if entries.contains_key(key) {
        StoreReplyView::Found(entries[key])
    } else {
        StoreReplyView::Absent
    }
}

/// The text of a store entry: there is none unless an entry was found and
/// its bytes are well-formed UTF-8.
pub open spec fn text_of(reply: StoreReplyView) -> Option<Seq<char>> {
    match reply {
        StoreReplyView::Found(bytes) => if valid_utf8(bytes) {
            Some(decode_utf8(bytes))
        } else {
            None
        },
        _ => None,
    }
}

/// `String::from_utf8` of std: the text that the bytes encode, if they are
/// well-formed UTF-8, and nothing otherwise.
#[verifier::external_body]
fn utf8_text(bytes: Vec<u8>) -> (text: Option<String>)
    ensures
        text is Some <==> valid_utf8(bytes@),
        text matches Some(t) ==> t@ == decode_utf8(bytes@),
{
    String::from_utf8(bytes).ok()
}

/// Reads a reply of the store as text.
pub fn entry_text(reply: StoreReply) -> (text: Option<String>)
    ensures
        text is Some <==> text_of(reply@) is Some,
        text matches Some(t) ==> text_of(reply@) == Some(t@),
{
    match reply {
        StoreReply::Found(bytes) => utf8_text(bytes),
        StoreReply::Absent => None,
        StoreReply::Failed => None,
    }
}

} // verus!
