//! The query engine's side of a search: how many hits are asked for, in which
//! fields a query looks, and what a well-formed ranking is.

use vstd::prelude::*;
use tantivy::collector::TopDocs;
use tantivy::query::QueryParser;
use tantivy::schema::{Field, Schema};
use tantivy::tokenizer::TokenizerManager;
use crate::schema::{report_fields, schema_fields, ReportSchema};

verus! {

/// The largest number of hits that a search asks the index for.
pub const MAX_RESULTS: usize = 10;

/// A match of the index: where the document lies, and how relevant it is.
#[derive(Clone, Copy, Debug, PartialEq, Eq, Structural)]
pub struct SearchHit {
    /// The ordinal of the segment that holds the document.
    pub segment: u32,
    /// The number of the document within its segment.
    pub doc: u32,
    /// The relevance score, as an integer that orders as the score does.
    pub score: u32,
}

/// The place of a single-precision number among all such numbers, read from
/// its bit pattern: the sign bit parts the negative numbers from the others,
/// and the remaining bits give the magnitude. Among the others a larger
/// magnitude stands higher, among the negative ones lower; negative zero
/// stands just below zero.
pub open spec fn score_rank(bits: u32) -> int {
    if bits >= 0x8000_0000 {
        0x7fff_ffff - bits
    } else {
        bits as int
    }
}

/// The integer that stands for a relevance score in a `SearchHit`, from the
/// bit pattern of the score.
pub open spec fn key_of_bits(bits: u32) -> u32 {
    if bits >= 0x8000_0000 {
        (0xffff_ffff - bits) as u32
    } else {
        (bits + 0x8000_0000) as u32
    }
}

/// Turns the bit pattern of a relevance score into the integer that a
/// `SearchHit` carries.
pub fn score_key(bits: u32) -> (key: u32)
    ensures
        key == key_of_bits(bits),
        key == 0x8000_0000 + score_rank(bits),
{
    if bits >= 0x8000_0000 {
        0xffff_ffff - bits
    } else {
        bits + 0x8000_0000
    }
}

/// The integers of two scores stand as the scores do: the score that stands
/// higher has the larger integer, and only equal bit patterns have equal
/// integers.
pub proof fn score_key_keeps_order(low: u32, high: u32)
    ensures
        score_rank(low) <= score_rank(high) <==> key_of_bits(low) <= key_of_bits(high),
        key_of_bits(low) == key_of_bits(high) <==> low == high,
{
}

/// A ranking holds no more than `MAX_RESULTS` hits, the most relevant first.
/// Hits of equal score may stand in any order.
pub open spec fn is_ranked(hits: Seq<SearchHit>) -> bool {
    &&& hits.len() <= MAX_RESULTS
    &&& forall|i: int, j: int| 0 <= i < j < hits.len() ==> hits[i].score >= hits[j].score
}

/// Checks that `hits` is a ranking.
pub fn ranked(hits: &Vec<SearchHit>) -> (yes: bool)
    ensures
        yes == is_ranked(hits@),
{
    if hits.len() > MAX_RESULTS {
        return false;
    }
    let mut at: usize = 1;
    while at < hits.len()
        invariant
            1 <= at,
            hits.len() <= MAX_RESULTS,
            forall|i: int, j: int| 0 <= i < j < at && j < hits.len() ==> hits[i].score >= hits[j].score,
        decreases hits.len() - at,
    {
        if hits[at - 1].score < hits[at].score {
            return false;
        }
        assert forall|i: int, j: int| 0 <= i < j < at + 1 && j < hits.len() implies hits[i].score
            >= hits[j].score by {
            if j == at && i < at - 1 {
                assert(hits[i].score >= hits[at - 1].score);
            }
        }
        at = at + 1;
    }
    true
}

/// `TopDocs` of tantivy, carried as it is.
#[verifier::external_type_specification]
#[verifier::external_body]
pub struct ExTopDocs(TopDocs);

/// `QueryParser` of tantivy, carried as it is.
#[verifier::external_type_specification]
#[verifier::external_body]
pub struct ExQueryParser(QueryParser);

/// The number of documents that a collector was made to keep.
pub uninterp spec fn collector_limit(collector: TopDocs) -> nat;

/// What a parser was made with: the fields of its schema, as `schema_fields`
/// gives them, and the numbers of the fields in which it looks for a term
/// that names no field.
pub uninterp spec fn parser_setup(parser: QueryParser) -> (
    Seq<(Seq<char>, u8, bool, bool)>,
    Seq<u32>,
);

/// `TopDocs::with_limit` of tantivy: a collector of the `limit` best
/// documents. The call panics on a limit of zero.
#[verifier::external_body]
fn top_docs(limit: usize) -> (collector: TopDocs)
    requires
        limit != 0,
    ensures
        collector_limit(collector) == limit,
{
    TopDocs::with_limit(limit)
}

/// `QueryParser::new` of tantivy, with the tokenizers that an index has
/// unless it is told otherwise: a parser that holds a copy of the schema and
/// looks in the given fields.
#[verifier::external_body]
fn new_parser(schema: &Schema, fields: Vec<u32>) -> (parser: QueryParser)
    ensures
        parser_setup(parser) == (schema_fields(*schema), fields@),
{
    let fields = fields.into_iter().map(Field::from_field_id).collect();
    QueryParser::new(schema.clone(), fields, TokenizerManager::default())
}

/// The collector with which a search is run: it keeps the `MAX_RESULTS` best
/// documents.
pub fn collector() -> (collector: TopDocs)
    ensures
        collector_limit(collector) == MAX_RESULTS,
{
    top_docs(MAX_RESULTS)
}

/// The parser with which query texts are read: it is made for the report
/// schema, and a term that names no field is looked for in `id`, `title` and
/// `body`.
pub fn query_parser(schema: &ReportSchema) -> (parser: QueryParser)
    ensures
        parser_setup(parser) == (report_fields(), seq![schema.id(), schema.title(), schema.body()]),
{
    new_parser(schema.schema(), schema.default_fields())
}

} // verus!
