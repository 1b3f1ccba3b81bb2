//! The projection of a record that the full-text index receives.

use vstd::prelude::*;
use vstd::utf8::encode_utf8;
use tantivy::schema::{Field, Value};
use tantivy::TantivyDocument;
use crate::record::{ReportRecord, ReportRecordView};
use crate::schema::ReportSchema;

verus! {

/// `TantivyDocument` of tantivy, carried as it is.
#[verifier::external_type_specification]
#[verifier::external_body]
pub struct ExTantivyDocument(TantivyDocument);

/// The values that a document of the index engine holds, in the order in
/// which they were added: for each the number of its field, and its text if
/// it is a text value.
pub uninterp spec fn document_values(document: TantivyDocument) -> Seq<(u32, Option<Seq<char>>)>;

/// The number of bytes that a document of the index engine holds for its
/// values.
pub uninterp spec fn document_size(document: TantivyDocument) -> nat;

/// The text of the first value that `values` has for `field`: none if there
/// is no such value or if the first one is not a text.
pub open spec fn first_text_in(values: Seq<(u32, Option<Seq<char>>)>, field: u32) -> Option<
    Seq<char>,
>
    decreases values.len(),
{
    if values.len() == 0 {
        None
    } else if values[0].0 == field {
        values[0].1
    } else {
        first_text_in(values.skip(1), field)
    }
}

/// `TantivyDocument::new` of tantivy: a document without values, which holds
/// no bytes.
#[verifier::external_body]
fn new_document() -> (document: TantivyDocument)
    ensures
        document_values(document) == Seq::<(u32, Option<Seq<char>>)>::empty(),
        document_size(document) == 0,
{
    TantivyDocument::new()
}

/// `TantivyDocument::add_text` of tantivy: appends a text value for the
/// field. The text is written behind the bytes held so far, after its length
/// in at most five bytes. The call panics on a field number above 65535; the
/// place and the length of the text are kept in 32 bits, so a text that
/// would end beyond them is left out here.
#[verifier::external_body]
fn add_text(document: &mut TantivyDocument, field: u32, text: &str)
    requires
        field <= 0xffff,
        document_size(*old(document)) + text.len() + 5 <= u32::MAX,
    ensures
        document_values(*final(document)) == document_values(*old(document)).push(
            (field, Some(text@)),
        ),
        document_size(*final(document)) <= document_size(*old(document)) + text.len() + 5,
{
    document.add_text(Field::from_field_id(field), text)
}

/// `TantivyDocument::get_first` of tantivy, followed by `Value::as_str`: the
/// first value of the field, as an owned text if it is one.
#[verifier::external_body]
pub(crate) fn first_text(document: &TantivyDocument, field: u32) -> (text: Option<String>)
    ensures
        text matches Some(t) ==> first_text_in(document_values(*document), field) == Some(t@),
        text is None ==> first_text_in(document_values(*document), field) is None,
{
    match document.get_first(Field::from_field_id(field)) {
        Some(value) => value.as_str().map(String::from),
        None => None,
    }
}

/// What the index is given for one record: the join key and the two
/// searchable texts. It is derived from a record and never read back whole.
#[derive(Clone, Debug, PartialEq, Eq)]
pub struct IndexedDocument {
    pub id: String,
    pub title: String,
    pub body: String,
}

/// An indexed document as plain text values.
pub struct IndexedDocumentView {
    pub id: Seq<char>,
    pub title: Seq<char>,
    pub body: Seq<char>,
}

impl View for IndexedDocument {
    type V = IndexedDocumentView;

    open spec fn view(&self) -> IndexedDocumentView {
        IndexedDocumentView { id: self.id@, title: self.title@, body: self.body@ }
    }
}

/// The number of bytes that a text takes as UTF-8, as far as a machine
/// counts them.
pub open spec fn byte_len(text: Seq<char>) -> int {
    encode_utf8(text).len() as usize as int
}

/// The bytes that an index entry may hold for the three texts of a document:
/// each text takes its bytes and up to five more for its length, and all of
/// it is addressed in 32 bits.
pub const ENTRY_LIMIT: usize = 0xffff_fff0;

impl IndexedDocumentView {
    /// Whether the document can be made into an index entry: its three texts
    /// together are not longer than `ENTRY_LIMIT`.
    pub open spec fn fits_entry(self) -> bool {
        byte_len(self.id) + byte_len(self.title) + byte_len(self.body) <= ENTRY_LIMIT
    }
}

/// The document that stands for `record` in the index.
pub open spec fn projection(record: ReportRecordView) -> IndexedDocumentView {
    IndexedDocumentView { id: record.key(), title: record.title, body: record.body }
}

impl IndexedDocument {
    /// Projects a record onto its indexed fields. A record that may not be
    /// imported has no projection.
    pub fn project(record: &ReportRecord) -> (document: Option<IndexedDocument>)
        ensures
            document is Some <==> record@.is_eligible(),
            document matches Some(d) ==> d@ == projection(record@),
    {
        match record.store_key() {
            Some(id) => Some(
                IndexedDocument { id, title: record.title.clone(), body: record.body.clone() },
            ),
            None => None,
        }
    }

    /// The values of the index entry that stands for a document, field by
    /// field in the order of the schema.
    pub open spec fn entry_values(self, schema: ReportSchema) -> Seq<(u32, Option<Seq<char>>)> {
        seq![
            (schema.id(), Some(self@.id)),
            (schema.title(), Some(self@.title)),
            (schema.body(), Some(self@.body)),
        ]
    }

    /// Turns the document into an entry for the index writer, unless its
    /// texts are too long for one. The join key goes in untouched: what
    /// `stored_id` reads from the entry is the `id` of the document.
    pub fn to_entry(&self, schema: &ReportSchema) -> (entry: Option<TantivyDocument>)
        ensures
            entry is Some <==> self@.fits_entry(),
            entry matches Some(made) ==> {
                &&& document_values(made) == self.entry_values(*schema)
                &&& first_text_in(document_values(made), schema.id()) == Some(self@.id)
            },
    {
        let id = self.id.as_str();
        let title = self.title.as_str();
        let body = self.body.as_str();
        if id.len() > ENTRY_LIMIT {
            return None;
        }
        let left: usize = ENTRY_LIMIT - id.len();
        if title.len() > left {
            return None;
        }
        let left: usize = left - title.len();
        if body.len() > left {
            return None;
        }
        let mut entry = new_document();
        add_text(&mut entry, schema.id_field(), id);
        add_text(&mut entry, schema.title_field(), title);
        add_text(&mut entry, schema.body_field(), body);
        assert(document_values(entry) =~= self.entry_values(*schema));
        Some(entry)
    }
}

/// Reads the join key that a document fetched from the index carries in its
/// `id` field. There is none if the field has no value or if its first value
/// is not a text.
pub fn stored_id(document: &TantivyDocument, schema: &ReportSchema) -> (id: Option<String>)
    ensures
        id matches Some(text) ==> first_text_in(document_values(*document), schema.id()) == Some(
            text@,
        ),
        id is None ==> first_text_in(document_values(*document), schema.id()) is None,
{
    first_text(document, schema.id_field())
}

} // verus!
