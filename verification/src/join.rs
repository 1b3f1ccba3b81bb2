//! What a search returns, stated over the index and the store as they are
//! when the search runs.
//!
//! The two are modelled as plain values, and a caller is taken to answer
//! every request truthfully from them. The theorems say which records come
//! back, and that a store entry that is gone or spoiled costs the hits that
//! point at it and nothing else.

use vstd::prelude::*;
use vstd::utf8::{decode_utf8, valid_utf8};
use crate::consistency::{effect_of_all, import_last_write_wins, Stores};
use crate::document::projection;
use crate::import::plan;
use crate::query::{is_ranked, SearchHit};
use crate::record::ReportRecordView;
use crate::search::{
    initial, key_in, react, react_keeps_valid, request, seek, SearchActionView, SearchEventView,
    SearchResultView, SearchView, Waiting,
};
use crate::store::{lookup, text_of};

verus! {

/// The index and the store at the time of a search.
pub struct World {
    /// The stored values of each document of the index, by segment and
    /// document number.
    pub documents: Map<(u32, u32), Seq<(u32, Option<Seq<char>>)>>,
    /// The document store: key to bytes.
    pub entries: Map<Seq<char>, Seq<u8>>,
    /// The record that a text spells, if it spells one.
    pub decode: spec_fn(Seq<char>) -> Option<ReportRecordView>,
}

/// What the index gives for a hit.
pub open spec fn fetched(world: World, hit: SearchHit) -> Option<Seq<(u32, Option<Seq<char>>)>> {
    if world.documents.contains_key((hit.segment, hit.doc)) {
        Some(world.documents[(hit.segment, hit.doc)])
    } else {
        None
    }
}

/// The truthful answer to a request about a hit. A query is not answered
/// from the world: its hits are given.
pub open spec fn answer(world: World, action: SearchActionView) -> SearchEventView {
    match action {
        SearchActionView::Fetch { hit } => SearchEventView::Document(fetched(world, hit)),
        SearchActionView::Lookup { key } => SearchEventView::Entry(lookup(world.entries, key)),
        SearchActionView::Decode { text } => SearchEventView::Record((world.decode)(text)),
        _ => SearchEventView::IndexFailed,
    }
}

/// The join key that the index holds for a hit.
pub open spec fn key_of(world: World, id_field: u32, hit: SearchHit) -> Option<Seq<char>> {
    key_in(fetched(world, hit), id_field)
}

/// The record that the store entry under `key` spells.
pub open spec fn record_under(world: World, key: Seq<char>) -> Option<ReportRecordView> {
    match text_of(lookup(world.entries, key)) {
        Some(text) => (world.decode)(text),
        None => None,
    }
}

/// The record that a hit resolves to: the index has a key for the hit, the
/// store an entry under the key, and the entry spells a record.
pub open spec fn resolved(world: World, id_field: u32, hit: SearchHit) -> Option<ReportRecordView> {
    match key_of(world, id_field, hit) {
        Some(key) => record_under(world, key),
        None => None,
    }
}

/// A resolved hit as a list of results: one or none.
pub open spec fn kept(hit: SearchHit, record: Option<ReportRecordView>) -> Seq<SearchResultView> {
    match record {
        Some(record) => seq![SearchResultView { hit, record }],
        None => Seq::empty(),
    }
}

/// The hits from position `from` on that resolve, each with its record, in
/// the order of the hits.
pub open spec fn joined(world: World, id_field: u32, hits: Seq<SearchHit>, from: int) -> Seq<
    SearchResultView,
>
    decreases hits.len() - from,
{
    if from < 0 || from >= hits.len() {
        Seq::empty()
    } else {
        kept(hits[from], resolved(world, id_field, hits[from])) + joined(
            world,
            id_field,
            hits,
            from + 1,
        )
    }
}

/// The action that a search ends with when every request is answered
/// truthfully, if it ends within `fuel` requests.
pub open spec fn run(world: World, state: SearchView, action: SearchActionView, fuel: nat) -> SearchActionView
    decreases fuel,
{
    if fuel == 0 || !(action is Fetch || action is Lookup || action is Decode) {
        action
    } else {
        let next = react(state, answer(world, action));
        run(world, next.0, next.1, (fuel - 1) as nat)
    }
}

spec fn current(world: World, state: SearchView) -> Option<ReportRecordView> {
    match state.waiting {
        Waiting::Document => resolved(world, state.id_field, state.hits[state.at]),
        Waiting::Entry { key } => record_under(world, key),
        Waiting::Record { text } => (world.decode)(text),
        _ => None,
    }
}

spec fn outcome(world: World, state: SearchView) -> Seq<SearchResultView> {
    state.results + kept(state.hits[state.at], current(world, state)) + joined(
        world,
        state.id_field,
        state.hits,
        state.at + 1,
    )
}

spec fn requests_left(state: SearchView) -> int {
    3 * (state.hits.len() - state.at) - match state.waiting {
        Waiting::Entry { .. } => 1int,
        Waiting::Record { .. } => 2int,
        _ => 0int,
    }
}

proof fn turning_keeps_outcome(world: World, state: SearchView, results: Seq<SearchResultView>)
    requires
        state.valid(),
        state.at < state.hits.len(),
        results == state.results + kept(state.hits[state.at], current(world, state)),
    ensures
        ({
            let next = seek(state, state.at + 1, results);
            if state.at + 1 < state.hits.len() {
                &&& next.1 == request(next.0)
                &&& next.0.waiting is Document
                &&& outcome(world, next.0) == outcome(world, state)
            } else {
                next.1 == (SearchActionView::Done { results: outcome(world, state) })
            }
        }),
{
    let next = seek(state, state.at + 1, results);
    if state.at + 1 < state.hits.len() {
        assert(outcome(world, next.0) =~= outcome(world, state));
    } else {
        assert(outcome(world, state) =~= results);
    }
}

proof fn run_ends(world: World, state: SearchView, fuel: nat)
    requires
        state.valid(),
        state.waiting is Document || state.waiting is Entry || state.waiting is Record,
        fuel >= requests_left(state),
    ensures
        run(world, state, request(state), fuel) == (SearchActionView::Done {
            results: outcome(world, state),
        }),
    decreases fuel,
{
    let action = request(state);
    let event = answer(world, action);
    let next = react(state, event);
    react_keeps_valid(state, event);
    let hit = state.hits[state.at];
    let moved = match state.waiting {
        Waiting::Document => key_of(world, state.id_field, hit) is Some,
        Waiting::Entry { key } => text_of(lookup(world.entries, key)) is Some,
        _ => false,
    };
    assert(fuel >= 1);
    assert(run(world, state, action, fuel) == run(world, next.0, next.1, (fuel - 1) as nat));
    if moved {
        assert(next.1 == request(next.0));
        assert(outcome(world, next.0) == outcome(world, state));
        run_ends(world, next.0, (fuel - 1) as nat);
    } else {
        let results = state.results + kept(hit, current(world, state));
        assert(results =~= match current(world, state) {
            Some(record) => state.results.push(SearchResultView { hit, record }),
            None => state.results,
        });
        assert(next == seek(state, state.at + 1, results));
        turning_keeps_outcome(world, state, results);
        if state.at + 1 < state.hits.len() {
            run_ends(world, next.0, (fuel - 1) as nat);
        } else {
            assert(run(world, next.0, next.1, (fuel - 1) as nat) == next.1);
        }
    }
}

/// A search whose query gave the ranking `hits`, and whose requests are all
/// answered truthfully, ends after at most three requests per hit, and ends
/// well: it returns the hits that resolve, each with its record, in the
/// order of the ranking.
pub proof fn search_returns_the_join(world: World, id_field: u32, text: Seq<char>, hits: Seq<SearchHit>)
    requires
        is_ranked(hits),
    ensures
        ({
            let start = react(initial(id_field, text), SearchEventView::Hits(hits));
            run(world, start.0, start.1, 3 * hits.len()) == (SearchActionView::Done {
                results: joined(world, id_field, hits, 0),
            })
        }),
{
    let start = react(initial(id_field, text), SearchEventView::Hits(hits));
    react_keeps_valid(initial(id_field, text), SearchEventView::Hits(hits));
    if hits.len() > 0 {
        run_ends(world, start.0, 3 * hits.len());
        assert(outcome(world, start.0) =~= joined(world, id_field, hits, 0));
    }
}

/// Whether `after` is `world` with the store entry under `key` gone or
/// spoiled: the index and every other entry are as they were, and under
/// `key` there is nothing, or bytes that are no text, or a text that spells
/// no record.
pub open spec fn spoiled(world: World, after: World, key: Seq<char>) -> bool {
    &&& after.documents == world.documents
    &&& after.decode == world.decode
    &&& after.entries.remove(key) == world.entries.remove(key)
    &&& record_under(after, key) is None
}

/// The results without those whose hit has the join key `key`.
pub open spec fn without(
    results: Seq<SearchResultView>,
    world: World,
    id_field: u32,
    key: Seq<char>,
) -> Seq<SearchResultView>
    decreases results.len(),
{
    if results.len() == 0 {
        Seq::empty()
    } else if key_of(world, id_field, results[0].hit) == Some(key) {
        without(results.skip(1), world, id_field, key)
    } else {
        seq![results[0]] + without(results.skip(1), world, id_field, key)
    }
}

/// When a store entry is gone or spoiled, a hit that points at it resolves
/// to nothing, and every other hit resolves as before.
pub proof fn spoiled_entry_drops_its_hits(
    world: World,
    after: World,
    key: Seq<char>,
    id_field: u32,
    hit: SearchHit,
)
    requires
        spoiled(world, after, key),
    ensures
        resolved(after, id_field, hit) == if key_of(world, id_field, hit) == Some(key) {
            None
        } else {
            resolved(world, id_field, hit)
        },
{
    match key_of(world, id_field, hit) {
        Some(other) => {
            if other != key {
                assert(after.entries.remove(key).contains_key(other)
                    == world.entries.remove(key).contains_key(other));
                assert(after.entries.remove(key)[other] == world.entries.remove(key)[other]);
            }
        },
        None => {},
    }
}

/// A search over a world in which one store entry is gone or spoiled returns
/// what it returned before, less the records of the hits that point at that
/// entry; the others come back as they were, in their order.
pub proof fn search_survives_spoiled_entry(
    world: World,
    after: World,
    key: Seq<char>,
    id_field: u32,
    hits: Seq<SearchHit>,
    from: int,
)
    requires
        spoiled(world, after, key),
        0 <= from <= hits.len(),
    ensures
        joined(after, id_field, hits, from) == without(
            joined(world, id_field, hits, from),
            world,
            id_field,
            key,
        ),
    decreases hits.len() - from,
{
    if from < hits.len() {
        let hit = hits[from];
        let rest = joined(world, id_field, hits, from + 1);
        spoiled_entry_drops_its_hits(world, after, key, id_field, hit);
        search_survives_spoiled_entry(world, after, key, id_field, hits, from + 1);
        match resolved(world, id_field, hit) {
            Some(record) => {
                let first = SearchResultView { hit, record };
                let all = joined(world, id_field, hits, from);
                assert(all =~= seq![first] + rest);
                assert(all[0] == first);
                assert(all.skip(1) =~= rest);
                if key_of(world, id_field, hit) == Some(key) {
                    assert(joined(after, id_field, hits, from) =~= joined(
                        after,
                        id_field,
                        hits,
                        from + 1,
                    ));
                }
            },
            None => {
                assert(joined(world, id_field, hits, from) =~= rest);
                assert(joined(after, id_field, hits, from) =~= joined(
                    after,
                    id_field,
                    hits,
                    from + 1,
                ));
            },
        }
    }
}

/// The join holds after an import. A hit on an index entry of an imported
/// record, whichever import run made the entry, resolves to the record that
/// was imported last under the same foreign identifier, provided the store
/// is as the import left it and deserialising undoes serialising. The key in
/// the index and the key in the store are the same text, so the lookup
/// cannot miss.
pub proof fn imported_record_is_found(
    records: Seq<ReportRecordView>,
    encode: spec_fn(ReportRecordView) -> Seq<u8>,
    before: Stores,
    entry: int,
    last: int,
    world: World,
    id_field: u32,
    hit: SearchHit,
)
    requires
        0 <= entry <= last < records.len(),
        records[entry].is_eligible(),
        records[last].meta.foreign_id == records[entry].meta.foreign_id,
        forall|i: int|
            last < i < records.len() ==> (#[trigger] records[i]).meta.foreign_id
                != records[last].meta.foreign_id,
        world.entries == effect_of_all(plan(records), records, encode, before).store,
        key_of(world, id_field, hit) == Some(projection(records[entry]).id),
        forall|record: ReportRecordView|
            valid_utf8(#[trigger] encode(record)) && (world.decode)(decode_utf8(encode(record)))
                == Some(record),
    ensures
        resolved(world, id_field, hit) == Some(records[last]),
{
    import_last_write_wins(records, encode, before, last);
}

} // verus!
