//! One search, from the query text to the ranked records: the query goes to
//! the index, and each hit is joined back to its full record in the store.
//!
//! The search asks its caller for one thing at a time and decides, from what
//! comes back, what to ask for next. A hit whose record cannot be had is
//! dropped; the search goes on with the next one.

use vstd::prelude::*;
use tantivy::TantivyDocument;
use crate::document::{document_values, first_text, first_text_in};
use crate::error::ErrorKind;
use crate::query::{is_ranked, ranked, SearchHit, MAX_RESULTS};
use crate::record::{ReportRecord, ReportRecordView};
use crate::schema::ReportSchema;
use crate::store::{entry_text, text_of, StoreReply, StoreReplyView};

verus! {

/// A hit together with the record it was resolved to.
#[derive(Clone, Debug, PartialEq, Eq)]
pub struct SearchResult {
    pub hit: SearchHit,
    pub record: ReportRecord,
}

/// A result as plain values.
pub struct SearchResultView {
    pub hit: SearchHit,
    pub record: ReportRecordView,
}

impl DeepView for SearchResult {
    type V = SearchResultView;

    open spec fn deep_view(&self) -> SearchResultView {
        SearchResultView { hit: self.hit, record: self.record@ }
    }
}

impl View for SearchResult {
    type V = SearchResultView;

    open spec fn view(&self) -> SearchResultView {
        self.deep_view()
    }
}

/// What the caller hands back to a search.
#[derive(Debug)]
pub enum SearchEvent {
    /// The query text is not a well-formed query.
    QueryRejected,
    /// The index engine failed while it ran the query.
    IndexFailed,
    /// The hits of the query, as the index engine ranked them.
    Hits(Vec<SearchHit>),
    /// The stored fields of the hit asked for, or nothing if they could not
    /// be read.
    Document(Option<TantivyDocument>),
    /// What the document store said of the key asked for.
    Entry(StoreReply),
    /// The record that the text asked about spells, or nothing if it spells
    /// none.
    Record(Option<ReportRecord>),
}

/// An event as plain values.
pub enum SearchEventView {
    QueryRejected,
    IndexFailed,
    Hits(Seq<SearchHit>),
    Document(Option<Seq<(u32, Option<Seq<char>>)>>),
    Entry(StoreReplyView),
    Record(Option<ReportRecordView>),
}

impl View for SearchEvent {
    type V = SearchEventView;

    open spec fn view(&self) -> SearchEventView {
        match self {
            SearchEvent::QueryRejected => SearchEventView::QueryRejected,
            SearchEvent::IndexFailed => SearchEventView::IndexFailed,
            SearchEvent::Hits(hits) => SearchEventView::Hits(hits@),
            SearchEvent::Document(fetched) => SearchEventView::Document(
                match fetched {
                    Some(document) => Some(document_values(*document)),
                    None => None,
                },
            ),
            SearchEvent::Entry(reply) => SearchEventView::Entry(reply@),
            SearchEvent::Record(record) => SearchEventView::Record(record.deep_view()),
        }
    }
}

/// What a search asks of its caller.
#[derive(Debug, PartialEq, Eq)]
pub enum SearchAction {
    /// Parse the text against the default fields and collect the `limit`
    /// best hits.
    Query { text: String, limit: usize },
    /// Read the stored fields of this hit from the index.
    Fetch { hit: SearchHit },
    /// Look this key up in the document store.
    Lookup { key: String },
    /// Deserialise this text into a record.
    Decode { text: String },
    /// The search is over; these are its results, the most relevant first.
    Done { results: Vec<SearchResult> },
    /// The search is over and has failed.
    Failed { kind: ErrorKind },
    /// The search was over before.
    Closed,
}

/// An action as plain values.
pub enum SearchActionView {
    Query { text: Seq<char>, limit: int },
    Fetch { hit: SearchHit },
    Lookup { key: Seq<char> },
    Decode { text: Seq<char> },
    Done { results: Seq<SearchResultView> },
    Failed { kind: ErrorKind },
    Closed,
}

impl View for SearchAction {
    type V = SearchActionView;

    open spec fn view(&self) -> SearchActionView {
        match self {
            SearchAction::Query { text, limit } => SearchActionView::Query {
                text: text@,
                limit: *limit as int,
            },
            SearchAction::Fetch { hit } => SearchActionView::Fetch { hit: *hit },
            SearchAction::Lookup { key } => SearchActionView::Lookup { key: key@ },
            SearchAction::Decode { text } => SearchActionView::Decode { text: text@ },
            SearchAction::Done { results } => SearchActionView::Done {
                results: results.deep_view(),
            },
            SearchAction::Failed { kind } => SearchActionView::Failed { kind: *kind },
            SearchAction::Closed => SearchActionView::Closed,
        }
    }
}

/// What a search is waiting for.
pub enum Waiting {
    /// The hits of the query.
    Hits,
    /// The stored fields of the current hit.
    Document,
    /// The store entry under the key of the current hit.
    Entry { key: Seq<char> },
    /// The record that the entry of the current hit spells.
    Record { text: Seq<char> },
    /// Nothing: the search is over.
    Nothing,
}

/// A search as plain values.
pub struct SearchView {
    /// The number of the index field that holds the join key.
    pub id_field: u32,
    /// The query text.
    pub text: Seq<char>,
    /// The hits of the query; empty until they have come.
    pub hits: Seq<SearchHit>,
    /// The position of the current hit.
    pub at: int,
    pub waiting: Waiting,
    /// The hits resolved so far, each with its record.
    pub results: Seq<SearchResultView>,
}

impl SearchView {
    /// What holds of a search at every moment: the hits are a ranking, the
    /// current hit exists while something is asked about it, and the results
    /// so far stem from earlier hits and stand in their order, so none is
    /// less relevant than a hit still to come or than a later result.
    pub open spec fn valid(self) -> bool {
        &&& is_ranked(self.hits)
        &&& 0 <= self.at <= self.hits.len()
        &&& self.results.len() <= self.at
        &&& (self.waiting is Document || self.waiting is Entry || self.waiting is Record)
            ==> self.at < self.hits.len()
        &&& forall|i: int, p: int|
            0 <= i < self.results.len() && self.at <= p < self.hits.len()
                ==> self.results[i].hit.score >= self.hits[p].score
        &&& forall|i: int, j: int|
            0 <= i < j < self.results.len() ==> self.results[i].hit.score
                >= self.results[j].hit.score
    }
}

/// The hits of a list of results.
pub open spec fn hits_of(results: Seq<SearchResultView>) -> Seq<SearchHit> {
    Seq::new(results.len(), |i: int| results[i].hit)
}

/// A search for `text` that has not heard from the index yet.
pub open spec fn initial(id_field: u32, text: Seq<char>) -> SearchView {
    SearchView {
        id_field,
        text,
        hits: Seq::empty(),
        at: 0,
        waiting: Waiting::Hits,
        results: Seq::empty(),
    }
}

/// What a search in this state asks of its caller.
pub open spec fn request(state: SearchView) -> SearchActionView {
    match state.waiting {
        Waiting::Hits => SearchActionView::Query { text: state.text, limit: MAX_RESULTS as int },
        Waiting::Document => SearchActionView::Fetch { hit: state.hits[state.at] },
        Waiting::Entry { key } => SearchActionView::Lookup { key },
        Waiting::Record { text } => SearchActionView::Decode { text },
        Waiting::Nothing => SearchActionView::Closed,
    }
}

/// The search turns to the hit at position `at`, or ends with its results
/// if there is no such hit.
pub open spec fn seek(state: SearchView, at: int, results: Seq<SearchResultView>) -> (
    SearchView,
    SearchActionView,
) {
    if at < state.hits.len() {
        let turned = SearchView { at, waiting: Waiting::Document, results, ..state };
        (turned, request(turned))
    } else {
        (
            SearchView { at, waiting: Waiting::Nothing, results: Seq::empty(), ..state },
            SearchActionView::Done { results },
        )
    }
}

/// The search ends in failure.
pub open spec fn fail(state: SearchView, kind: ErrorKind) -> (SearchView, SearchActionView) {
    (
        SearchView { waiting: Waiting::Nothing, results: Seq::empty(), ..state },
        SearchActionView::Failed { kind },
    )
}

/// The join key that a fetched document carries in the field `id_field`.
pub open spec fn key_in(fetched: Option<Seq<(u32, Option<Seq<char>>)>>, id_field: u32) -> Option<
    Seq<char>,
> {
    match fetched {
        Some(values) => first_text_in(values, id_field),
        None => None,
    }
}

/// The search after an event, and what it asks for next.
///
/// A query that the parser refuses fails the search, and so does a failure
/// of the index engine or a list of hits that is no ranking. After that each
/// hit is taken in turn: its stored `id` is read, the store is asked for the
/// entry under it, the entry is read as UTF-8 text, and the text is handed
/// out to be deserialised. Where one of these yields nothing the hit is
/// dropped. An event that does not answer the outstanding request changes
/// nothing: the request is made again.
pub open spec fn react(state: SearchView, event: SearchEventView) -> (SearchView, SearchActionView) {
    match (state.waiting, event) {
        (Waiting::Hits, SearchEventView::QueryRejected) => fail(state, ErrorKind::QueryParse),
        (Waiting::Hits, SearchEventView::IndexFailed) => fail(state, ErrorKind::IndexIo),
        (Waiting::Hits, SearchEventView::Hits(hits)) => if is_ranked(hits) {
            seek(SearchView { hits, ..state }, 0, Seq::empty())
        } else {
            fail(state, ErrorKind::IndexIo)
        },
        (Waiting::Document, SearchEventView::Document(fetched)) => match key_in(
            fetched,
            state.id_field,
        ) {
            Some(key) => (
                SearchView { waiting: Waiting::Entry { key }, ..state },
                SearchActionView::Lookup { key },
            ),
            None => seek(state, state.at + 1, state.results),
        },
        (Waiting::Entry { .. }, SearchEventView::Entry(reply)) => match text_of(reply) {
            Some(text) => (
                SearchView { waiting: Waiting::Record { text }, ..state },
                SearchActionView::Decode { text },
            ),
            None => seek(state, state.at + 1, state.results),
        },
        (Waiting::Record { .. }, SearchEventView::Record(record)) => match record {
            Some(record) => seek(
                state,
                state.at + 1,
                state.results.push(SearchResultView { hit: state.hits[state.at], record }),
            ),
            None => seek(state, state.at + 1, state.results),
        },
        _ => (state, request(state)),
    }
}

/// No event takes a search out of what holds of it at every moment.
pub proof fn react_keeps_valid(state: SearchView, event: SearchEventView)
    requires
        state.valid(),
    ensures
        react(state, event).0.valid(),
{
}

/// A search that succeeds returns at most `MAX_RESULTS` results, none less
/// relevant than the one after it.
pub proof fn results_are_ranked(state: SearchView, event: SearchEventView)
    requires
        state.valid(),
    ensures
        react(state, event).1 matches SearchActionView::Done { results } ==> is_ranked(
            hits_of(results),
        ),
{
}

/// The titles of the records found, in their order: what a result page
/// lists.
pub fn titles(results: &Vec<SearchResult>) -> (titles: Vec<String>)
    ensures
        titles@.len() == results@.len(),
        forall|i: int| 0 <= i < results@.len() ==> titles@[i]@ == results@[i]@.record.title,
{
    let mut titles: Vec<String> = Vec::new();
    let mut at: usize = 0;
    while at < results.len()
        invariant
            at <= results.len(),
            titles@.len() == at,
            forall|i: int| 0 <= i < at ==> titles@[i]@ == results@[i]@.record.title,
        decreases results.len() - at,
    {
        titles.push(results[at].record.title.clone());
        at = at + 1;
    }
    titles
}

fn turned(records: Vec<ReportRecord>) -> (turned: Vec<ReportRecord>)
    ensures
        turned@.len() == records@.len(),
        forall|i: int|
            0 <= i < records@.len() ==> #[trigger] turned@[i] == records@[records@.len() - 1 - i],
{
    let mut records = records;
    let mut turned: Vec<ReportRecord> = Vec::new();
    let ghost all = records@;
    while records.len() > 0
        invariant
            records@.len() + turned@.len() == all.len(),
            forall|i: int| 0 <= i < records@.len() ==> #[trigger] records@[i] == all[i],
            forall|i: int|
                0 <= i < turned@.len() ==> #[trigger] turned@[i] == all[all.len() - 1 - i],
        decreases records.len(),
    {
        let record = records.pop().unwrap();
        turned.push(record);
    }
    turned
}

/// The records found, in their order, without the hits they were found for.
pub fn records(results: Vec<SearchResult>) -> (records: Vec<ReportRecord>)
    ensures
        records@.len() == results@.len(),
        forall|i: int| 0 <= i < results@.len() ==> #[trigger] records@[i] == results@[i].record,
{
    let mut results = results;
    let mut backwards: Vec<ReportRecord> = Vec::new();
    let ghost all = results@;
    while results.len() > 0
        invariant
            results@.len() + backwards@.len() == all.len(),
            forall|i: int| 0 <= i < results@.len() ==> #[trigger] results@[i] == all[i],
            forall|i: int|
                0 <= i < backwards@.len() ==> #[trigger] backwards@[i] == all[all.len() - 1
                    - i].record,
        decreases results.len(),
    {
        let result = results.pop().unwrap();
        backwards.push(result.record);
    }
    turned(backwards)
}

enum Phase {
    Hits,
    Document,
    Entry,
    Record,
    Nothing,
}

/// One search in progress.
pub struct Search {
    id_field: u32,
    text: String,
    hits: Vec<SearchHit>,
    at: usize,
    phase: Phase,
    key: String,
    entry: String,
    results: Vec<SearchResult>,
}

impl Search {
    /// The search as plain values.
    pub closed spec fn view(&self) -> SearchView {
        SearchView {
            id_field: self.id_field,
            text: self.text@,
            hits: self.hits@,
            at: self.at as int,
            waiting: match self.phase {
                Phase::Hits => Waiting::Hits,
                Phase::Document => Waiting::Document,
                Phase::Entry => Waiting::Entry { key: self.key@ },
                Phase::Record => Waiting::Record { text: self.entry@ },
                Phase::Nothing => Waiting::Nothing,
            },
            results: self.results.deep_view(),
        }
    }

    /// Starts a search for `text` in an index of the given schema. The first
    /// thing to do is what `pending` says.
    pub fn begin(schema: &ReportSchema, text: String) -> (search: Search)
        ensures
            search@ == initial(schema.id(), text@),
            search@.valid(),
    {
        let search = Search {
            id_field: schema.id_field(),
            text,
            hits: Vec::new(),
            at: 0,
            phase: Phase::Hits,
            key: String::new(),
            entry: String::new(),
            results: Vec::new(),
        };
        assert(search.results.deep_view() =~= Seq::empty());
        search
    }

    /// What the search is asking for. A search that is over asks for
    /// nothing: its results were handed out when it ended.
    pub fn pending(&self) -> (action: SearchAction)
        requires
            self@.valid(),
        ensures
            action@ == request(self@),
    {
        match self.phase {
            Phase::Hits => SearchAction::Query { text: self.text.clone(), limit: MAX_RESULTS },
            Phase::Document => SearchAction::Fetch { hit: self.hits[self.at] },
            Phase::Entry => SearchAction::Lookup { key: self.key.clone() },
            Phase::Record => SearchAction::Decode { text: self.entry.clone() },
            Phase::Nothing => SearchAction::Closed,
        }
    }

    fn fail(&mut self, kind: ErrorKind) -> (action: SearchAction)
        ensures
            (final(self)@, action@) == fail(old(self)@, kind),
    {
        self.phase = Phase::Nothing;
        self.results = Vec::new();
        assert(self.results.deep_view() =~= Seq::empty());
        SearchAction::Failed { kind }
    }

    fn seek(&mut self, at: usize) -> (action: SearchAction)
        requires
            at <= old(self).hits.len(),
        ensures
            (final(self)@, action@) == seek(old(self)@, at as int, old(self)@.results),
    {
        self.at = at;
        if at < self.hits.len() {
            self.phase = Phase::Document;
            SearchAction::Fetch { hit: self.hits[at] }
        } else {
            self.phase = Phase::Nothing;
            let mut results: Vec<SearchResult> = Vec::new();
            core::mem::swap(&mut results, &mut self.results);
            assert(self.results.deep_view() =~= Seq::empty());
            SearchAction::Done { results }
        }
    }

    /// Takes an event and says what to do next.
    pub fn react(&mut self, event: SearchEvent) -> (action: SearchAction)
        requires
            old(self)@.valid(),
        ensures
            final(self)@.valid(),
            (final(self)@, action@) == react(old(self)@, event@),
            action@ matches SearchActionView::Done { results } ==> is_ranked(hits_of(results)),
            old(self)@.waiting is Hits && event@ is QueryRejected ==> action@ == (
                SearchActionView::Failed { kind: ErrorKind::QueryParse }),
    {
        proof {
            react_keeps_valid(self@, event@);
            results_are_ranked(self@, event@);
        }
        match self.phase {
            Phase::Hits => match event {
                SearchEvent::QueryRejected => self.fail(ErrorKind::QueryParse),
                SearchEvent::IndexFailed => self.fail(ErrorKind::IndexIo),
                SearchEvent::Hits(hits) => {
                    if ranked(&hits) {
                        self.hits = hits;
                        self.results = Vec::new();
                        assert(self.results.deep_view() =~= Seq::empty());
                        self.seek(0)
                    } else {
                        self.fail(ErrorKind::IndexIo)
                    }
                },
                _ => self.pending(),
            },
            Phase::Document => match event {
                SearchEvent::Document(fetched) => {
                    let key = match fetched {
                        Some(document) => first_text(&document, self.id_field),
                        None => None,
                    };
                    match key {
                        Some(key) => {
                            self.key = key.clone();
                            self.phase = Phase::Entry;
                            SearchAction::Lookup { key }
                        },
                        None => self.seek(self.at + 1),
                    }
                },
                _ => self.pending(),
            },
            Phase::Entry => match event {
                SearchEvent::Entry(reply) => {
                    match entry_text(reply) {
                        Some(text) => {
                            self.entry = text.clone();
                            self.phase = Phase::Record;
                            SearchAction::Decode { text }
                        },
                        None => self.seek(self.at + 1),
                    }
                },
                _ => self.pending(),
            },
            Phase::Record => match event {
                SearchEvent::Record(record) => {
                    match record {
                        Some(record) => {
                            let ghost found = SearchResultView {
                                hit: self.hits[self.at as int],
                                record: record@,
                            };
                            self.results.push(SearchResult { hit: self.hits[self.at], record });
                            assert(self.results.deep_view() =~= old(self).results.deep_view().push(
                                found,
                            ));
                            self.seek(self.at + 1)
                        },
                        None => self.seek(self.at + 1),
                    }
                },
                _ => self.pending(),
            },
            Phase::Nothing => SearchAction::Closed,
        }
    }
}

} // verus!
