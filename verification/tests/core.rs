use report_search::document::{stored_id, IndexedDocument};
use report_search::error::ErrorKind;
use report_search::import::{progress_due, ImportOp, ImportRun, ImportStep};
use report_search::key::decimal_text;
use report_search::query::{ranked, score_key, SearchHit, MAX_RESULTS};
use report_search::record::{ErowidNotes, ReportMeta, ReportRecord, SubstanceInfo};
use report_search::schema::ReportSchema;
use report_search::search::{records, titles, Search, SearchAction, SearchEvent, SearchResult};
use report_search::store::{entry_text, StoreReply};

fn report(foreign_id: Option<u32>, title: &str, body: &str) -> ReportRecord {
    ReportRecord {
        title: title.to_string(),
        substance: "Ketamine".to_string(),
        author: "anon".to_string(),
        body: body.to_string(),
        substance_info: vec![SubstanceInfo {
            amount: "50 mg".to_string(),
            method: "oral".to_string(),
            substance: "Ketamine".to_string(),
            form: "powder".to_string(),
        }],
        meta: ReportMeta {
            year: Some(2004),
            foreign_id,
            gender: Some("male".to_string()),
            age: Some(23),
            published: None,
            views: Some(1200),
        },
        erowid_notes: ErowidNotes { caution: vec![], note: vec!["n".to_string()], warning: vec![] },
        pull_quotes: vec!["q".to_string()],
    }
}

fn hit(doc: u32, score: u32) -> SearchHit {
    SearchHit { segment: 0, doc, score }
}

fn steps(records: Vec<ReportRecord>) -> Vec<ImportStep> {
    let mut run = ImportRun::begin(Some(records)).unwrap();
    let mut seen = Vec::new();
    loop {
        let step = run.advance(true);
        let over = !matches!(step, ImportStep::Perform(_));
        seen.push(step);
        if over {
            return seen;
        }
    }
}

#[test]
fn decimal_text_writes_numerals() {
    assert_eq!(decimal_text(0), "0");
    assert_eq!(decimal_text(7), "7");
    assert_eq!(decimal_text(10), "10");
    assert_eq!(decimal_text(101), "101");
    assert_eq!(decimal_text(90210), "90210");
    assert_eq!(decimal_text(u32::MAX), "4294967295");
}

#[test]
fn decimal_text_agrees_with_std() {
    let mut n: u32 = 1;
    for _ in 0..200 {
        assert_eq!(decimal_text(n), n.to_string());
        n = n.wrapping_mul(2654435761).wrapping_add(12345);
    }
}

#[test]
fn only_a_nonzero_foreign_id_makes_a_record_eligible() {
    assert!(!report(None, "t", "b").eligible());
    assert!(!report(Some(0), "t", "b").eligible());
    assert!(report(Some(1), "t", "b").eligible());
    assert_eq!(report(None, "t", "b").store_key(), None);
    assert_eq!(report(Some(0), "t", "b").store_key(), None);
    assert_eq!(report(Some(101), "t", "b").store_key(), Some("101".to_string()));
}

#[test]
fn projection_keeps_key_title_and_body() {
    let document = IndexedDocument::project(&report(Some(42), "Title", "Body text")).unwrap();
    assert_eq!(
        document,
        IndexedDocument {
            id: "42".to_string(),
            title: "Title".to_string(),
            body: "Body text".to_string()
        }
    );
    assert_eq!(IndexedDocument::project(&report(Some(0), "Title", "Body")), None);
    assert_eq!(IndexedDocument::project(&report(None, "Title", "Body")), None);
}

#[test]
fn progress_is_due_every_hundredth_record_of_a_long_source() {
    assert_eq!(progress_due(0, 100), Some(0));
    assert_eq!(progress_due(100, 250), Some(50));
    assert_eq!(progress_due(200, 250), Some(100));
    assert_eq!(progress_due(300, 1000), Some(30));
    assert_eq!(progress_due(50, 250), None);
    assert_eq!(progress_due(0, 99), None);
    assert_eq!(progress_due(0, 0), None);
}

#[test]
fn import_hands_out_store_then_index_for_each_eligible_record() {
    let seen = steps(vec![
        report(Some(101), "Ketamine Journey", "ketamine ketamine ketamine"),
        report(Some(102), "A Night Out", "ketamine once"),
        report(Some(0), "Excluded", ""),
    ]);
    assert_eq!(
        seen,
        vec![
            ImportStep::Perform(ImportOp::Store { key: "101".to_string(), record: 0 }),
            ImportStep::Perform(ImportOp::Index {
                document: IndexedDocument {
                    id: "101".to_string(),
                    title: "Ketamine Journey".to_string(),
                    body: "ketamine ketamine ketamine".to_string(),
                }
            }),
            ImportStep::Perform(ImportOp::Store { key: "102".to_string(), record: 1 }),
            ImportStep::Perform(ImportOp::Index {
                document: IndexedDocument {
                    id: "102".to_string(),
                    title: "A Night Out".to_string(),
                    body: "ketamine once".to_string(),
                }
            }),
            ImportStep::Perform(ImportOp::Commit),
            ImportStep::Perform(ImportOp::Settle),
            ImportStep::Finished,
        ]
    );
}

#[test]
fn import_of_ineligible_records_only_commits() {
    let seen = steps(vec![report(None, "a", "b"), report(Some(0), "c", "d")]);
    assert_eq!(
        seen,
        vec![
            ImportStep::Perform(ImportOp::Commit),
            ImportStep::Perform(ImportOp::Settle),
            ImportStep::Finished,
        ]
    );
    let seen = steps(vec![]);
    assert_eq!(seen.len(), 3);
}

#[test]
fn import_reports_progress_for_long_sources() {
    let mut source = Vec::new();
    for n in 0..250u32 {
        // every fifth record is left out
        source.push(report(if n % 5 == 0 { None } else { Some(n) }, "t", "b"));
    }
    let seen = steps(source);
    let mut reports = Vec::new();
    let mut stores = 0;
    for (position, step) in seen.iter().enumerate() {
        match step {
            ImportStep::Perform(ImportOp::Report { percent }) => {
                // a report follows the index entry of the record it counts from
                assert!(matches!(seen[position - 1], ImportStep::Perform(ImportOp::Index { .. })));
                reports.push(*percent);
            }
            ImportStep::Perform(ImportOp::Store { .. }) => stores += 1,
            _ => {}
        }
    }
    assert_eq!(stores, 200);
    assert_eq!(reports, vec![0, 50]);
}

#[test]
fn import_without_a_source_fails_before_anything_is_written() {
    assert_eq!(ImportRun::begin(None).err(), Some(ErrorKind::ImportSource));
}

#[test]
fn import_gives_access_to_the_record_of_a_store_operation() {
    let run = ImportRun::begin(Some(vec![report(Some(5), "five", "b")])).unwrap();
    assert_eq!(run.total(), 1);
    assert_eq!(run.record(0), Some(&report(Some(5), "five", "b")));
    assert_eq!(run.record(1), None);
}

#[test]
fn a_failed_store_write_aborts_the_import() {
    let mut run = ImportRun::begin(Some(vec![
        report(Some(1), "one", "b"),
        report(Some(2), "two", "b"),
    ]))
    .unwrap();
    assert!(matches!(run.advance(true), ImportStep::Perform(ImportOp::Store { .. })));
    assert_eq!(run.advance(false), ImportStep::Aborted(ErrorKind::StoreIo));
    // the run stays given up, whatever is reported afterwards
    assert_eq!(run.advance(true), ImportStep::Aborted(ErrorKind::StoreIo));
    assert_eq!(run.advance(false), ImportStep::Aborted(ErrorKind::StoreIo));
}

#[test]
fn a_failure_of_the_index_aborts_the_import() {
    let mut run = ImportRun::begin(Some(vec![report(Some(1), "one", "b")])).unwrap();
    assert!(matches!(run.advance(true), ImportStep::Perform(ImportOp::Store { .. })));
    assert!(matches!(run.advance(true), ImportStep::Perform(ImportOp::Index { .. })));
    assert_eq!(run.advance(false), ImportStep::Aborted(ErrorKind::IndexIo));

    let mut run = ImportRun::begin(Some(vec![])).unwrap();
    assert_eq!(run.advance(true), ImportStep::Perform(ImportOp::Commit));
    assert_eq!(run.advance(false), ImportStep::Aborted(ErrorKind::IndexIo));

    let mut run = ImportRun::begin(Some(vec![])).unwrap();
    assert_eq!(run.advance(true), ImportStep::Perform(ImportOp::Commit));
    assert_eq!(run.advance(true), ImportStep::Perform(ImportOp::Settle));
    assert_eq!(run.advance(false), ImportStep::Aborted(ErrorKind::IndexIo));
}

#[test]
fn a_failure_with_nothing_outstanding_or_of_a_report_does_not_abort() {
    let mut run = ImportRun::begin(Some(vec![])).unwrap();
    assert_eq!(run.advance(false), ImportStep::Perform(ImportOp::Commit));

    let mut source = Vec::new();
    for n in 1..=100u32 {
        source.push(report(Some(n), "t", "b"));
    }
    let mut run = ImportRun::begin(Some(source)).unwrap();
    assert!(matches!(run.advance(true), ImportStep::Perform(ImportOp::Store { .. })));
    assert!(matches!(run.advance(true), ImportStep::Perform(ImportOp::Index { .. })));
    assert_eq!(run.advance(true), ImportStep::Perform(ImportOp::Report { percent: 0 }));
    assert_eq!(
        run.advance(false),
        ImportStep::Perform(ImportOp::Store { key: "2".to_string(), record: 1 })
    );
}

#[test]
fn a_finished_import_stays_finished() {
    let mut run = ImportRun::begin(Some(vec![])).unwrap();
    run.advance(true);
    run.advance(true);
    assert_eq!(run.advance(true), ImportStep::Finished);
    assert_eq!(run.advance(true), ImportStep::Finished);
    assert_eq!(run.advance(false), ImportStep::Finished);
}

#[test]
fn a_ranking_is_short_and_descends() {
    assert_eq!(MAX_RESULTS, 10);
    assert!(ranked(&vec![]));
    assert!(ranked(&vec![hit(0, 5)]));
    assert!(ranked(&vec![hit(0, 9), hit(1, 9), hit(2, 3)]));
    assert!(!ranked(&vec![hit(0, 3), hit(1, 9)]));
    assert!(!ranked(&vec![hit(0, 9), hit(1, 3), hit(2, 4)]));
    let mut ten = Vec::new();
    for n in 0..10 {
        ten.push(hit(n, 100 - n));
    }
    assert!(ranked(&ten));
    ten.push(hit(10, 1));
    assert!(!ranked(&ten));
}

#[test]
fn store_entries_are_read_as_utf8_text() {
    assert_eq!(entry_text(StoreReply::Found(b"{\"a\":1}".to_vec())), Some("{\"a\":1}".to_string()));
    assert_eq!(
        entry_text(StoreReply::Found(vec![0xe2, 0x82, 0xac, 0x21])),
        Some("\u{20ac}!".to_string())
    );
    assert_eq!(entry_text(StoreReply::Found(vec![])), Some(String::new()));
    assert_eq!(entry_text(StoreReply::Found(vec![0xff, 0xfe])), None);
    assert_eq!(entry_text(StoreReply::Found(vec![0xe2, 0x82])), None);
    assert_eq!(entry_text(StoreReply::Absent), None);
    assert_eq!(entry_text(StoreReply::Failed), None);
}

#[test]
fn errors_of_a_request_leave_the_process_up() {
    assert!(ErrorKind::QueryParse.request_scoped());
    assert!(ErrorKind::IndexIo.request_scoped());
    assert!(ErrorKind::StoreIo.request_scoped());
    assert!(!ErrorKind::ImportSource.request_scoped());
    assert!(!ErrorKind::Startup.request_scoped());
}

fn entry(schema: &ReportSchema, id: u32) -> tantivy::TantivyDocument {
    IndexedDocument::project(&report(Some(id), "t", "b")).unwrap().to_entry(schema).unwrap()
}

#[test]
fn a_search_begins_by_asking_for_the_hits() {
    let schema = ReportSchema::new();
    let search = Search::begin(&schema, "ketamine".to_string());
    assert_eq!(
        search.pending(),
        SearchAction::Query { text: "ketamine".to_string(), limit: 10 }
    );
}

#[test]
fn a_rejected_query_fails_the_search() {
    let schema = ReportSchema::new();
    let mut search = Search::begin(&schema, "title:".to_string());
    assert_eq!(
        search.react(SearchEvent::QueryRejected),
        SearchAction::Failed { kind: ErrorKind::QueryParse }
    );
    assert_eq!(search.react(SearchEvent::Hits(vec![])), SearchAction::Closed);
    assert_eq!(search.pending(), SearchAction::Closed);
}

#[test]
fn a_failing_index_fails_the_search() {
    let schema = ReportSchema::new();
    let mut search = Search::begin(&schema, "x".to_string());
    assert_eq!(
        search.react(SearchEvent::IndexFailed),
        SearchAction::Failed { kind: ErrorKind::IndexIo }
    );
    let mut search = Search::begin(&schema, "x".to_string());
    assert_eq!(
        search.react(SearchEvent::Hits(vec![hit(0, 1), hit(1, 2)])),
        SearchAction::Failed { kind: ErrorKind::IndexIo }
    );
}

#[test]
fn a_query_without_hits_succeeds_with_nothing() {
    let schema = ReportSchema::new();
    let mut search = Search::begin(&schema, "nothing".to_string());
    assert_eq!(search.react(SearchEvent::Hits(vec![])), SearchAction::Done { results: vec![] });
    assert_eq!(search.react(SearchEvent::Hits(vec![])), SearchAction::Closed);
}

#[test]
fn a_hit_is_joined_to_its_record() {
    let schema = ReportSchema::new();
    let found = report(Some(7), "Seven", "body");
    let mut search = Search::begin(&schema, "seven".to_string());
    assert_eq!(
        search.react(SearchEvent::Hits(vec![hit(3, 40)])),
        SearchAction::Fetch { hit: hit(3, 40) }
    );
    assert_eq!(
        search.react(SearchEvent::Document(Some(entry(&schema, 7)))),
        SearchAction::Lookup { key: "7".to_string() }
    );
    assert_eq!(
        search.react(SearchEvent::Entry(StoreReply::Found(b"seven as text".to_vec()))),
        SearchAction::Decode { text: "seven as text".to_string() }
    );
    assert_eq!(
        search.react(SearchEvent::Record(Some(found.clone()))),
        SearchAction::Done { results: vec![SearchResult { hit: hit(3, 40), record: found }] }
    );
    assert_eq!(search.pending(), SearchAction::Closed);
}

#[test]
fn a_hit_that_cannot_be_resolved_is_dropped() {
    let schema = ReportSchema::new();
    let kept = report(Some(5), "Five", "body");
    let mut search = Search::begin(&schema, "q".to_string());
    let hits = vec![hit(0, 90), hit(1, 80), hit(2, 70), hit(3, 60), hit(4, 50), hit(5, 40)];
    assert_eq!(search.react(SearchEvent::Hits(hits)), SearchAction::Fetch { hit: hit(0, 90) });
    // the stored fields cannot be read
    assert_eq!(search.react(SearchEvent::Document(None)), SearchAction::Fetch { hit: hit(1, 80) });
    // the document has no id
    assert_eq!(
        search.react(SearchEvent::Document(Some(tantivy::TantivyDocument::new()))),
        SearchAction::Fetch { hit: hit(2, 70) }
    );
    // the store has no entry
    assert_eq!(
        search.react(SearchEvent::Document(Some(entry(&schema, 3)))),
        SearchAction::Lookup { key: "3".to_string() }
    );
    assert_eq!(
        search.react(SearchEvent::Entry(StoreReply::Absent)),
        SearchAction::Fetch { hit: hit(3, 60) }
    );
    // the store cannot be read
    search.react(SearchEvent::Document(Some(entry(&schema, 4))));
    assert_eq!(
        search.react(SearchEvent::Entry(StoreReply::Failed)),
        SearchAction::Fetch { hit: hit(4, 50) }
    );
    // the entry resolves
    search.react(SearchEvent::Document(Some(entry(&schema, 5))));
    search.react(SearchEvent::Entry(StoreReply::Found(b"five".to_vec())));
    assert_eq!(
        search.react(SearchEvent::Record(Some(kept.clone()))),
        SearchAction::Fetch { hit: hit(5, 40) }
    );
    // the entry is no text, and after that a text that spells no record
    search.react(SearchEvent::Document(Some(entry(&schema, 6))));
    assert_eq!(
        search.react(SearchEvent::Entry(StoreReply::Found(vec![0xc3, 0x28]))),
        SearchAction::Done { results: vec![SearchResult { hit: hit(4, 50), record: kept }] }
    );
}

#[test]
fn a_text_that_spells_no_record_drops_the_hit() {
    let schema = ReportSchema::new();
    let mut search = Search::begin(&schema, "q".to_string());
    search.react(SearchEvent::Hits(vec![hit(0, 1)]));
    search.react(SearchEvent::Document(Some(entry(&schema, 9))));
    search.react(SearchEvent::Entry(StoreReply::Found(b"not json".to_vec())));
    assert_eq!(search.react(SearchEvent::Record(None)), SearchAction::Done { results: vec![] });
}

#[test]
fn an_event_that_answers_nothing_repeats_the_request() {
    let schema = ReportSchema::new();
    let mut search = Search::begin(&schema, "q".to_string());
    assert_eq!(
        search.react(SearchEvent::Entry(StoreReply::Absent)),
        SearchAction::Query { text: "q".to_string(), limit: 10 }
    );
    search.react(SearchEvent::Hits(vec![hit(0, 1)]));
    assert_eq!(search.react(SearchEvent::QueryRejected), SearchAction::Fetch { hit: hit(0, 1) });
    assert_eq!(search.react(SearchEvent::Record(None)), SearchAction::Fetch { hit: hit(0, 1) });
    search.react(SearchEvent::Document(Some(entry(&schema, 11))));
    assert_eq!(
        search.react(SearchEvent::Hits(vec![])),
        SearchAction::Lookup { key: "11".to_string() }
    );
    search.react(SearchEvent::Entry(StoreReply::Found(b"text".to_vec())));
    assert_eq!(
        search.react(SearchEvent::Document(None)),
        SearchAction::Decode { text: "text".to_string() }
    );
}

#[test]
fn the_stored_id_is_the_first_text_of_the_id_field() {
    let schema = ReportSchema::new();
    assert_eq!(stored_id(&entry(&schema, 321), &schema), Some("321".to_string()));
    assert_eq!(stored_id(&tantivy::TantivyDocument::new(), &schema), None);

    let id = tantivy::schema::Field::from_field_id(schema.id_field());
    let title = tantivy::schema::Field::from_field_id(schema.title_field());
    let mut document = tantivy::TantivyDocument::new();
    document.add_text(title, "a title");
    assert_eq!(stored_id(&document, &schema), None);
    document.add_u64(id, 17);
    document.add_text(id, "17");
    // the first value of the field is not a text
    assert_eq!(stored_id(&document, &schema), None);

    let mut document = tantivy::TantivyDocument::new();
    document.add_text(title, "a title");
    document.add_text(id, "first");
    document.add_text(id, "second");
    assert_eq!(stored_id(&document, &schema), Some("first".to_string()));
}

#[test]
fn an_index_entry_holds_id_title_and_body() {
    let schema = ReportSchema::new();
    let document = IndexedDocument {
        id: "55".to_string(),
        title: "A title".to_string(),
        body: "A body".to_string(),
    };
    let entry = document.to_entry(&schema).unwrap();
    let mut expected = tantivy::TantivyDocument::new();
    expected.add_text(tantivy::schema::Field::from_field_id(0), "55");
    expected.add_text(tantivy::schema::Field::from_field_id(1), "A title");
    expected.add_text(tantivy::schema::Field::from_field_id(2), "A body");
    assert_eq!(entry, expected);
    assert_eq!(entry.field_values().count(), 3);
}

#[test]
fn titles_and_records_keep_the_order_of_the_results() {
    let results = vec![
        SearchResult { hit: hit(0, 9), record: report(Some(1), "first", "b") },
        SearchResult { hit: hit(1, 8), record: report(Some(2), "second", "b") },
        SearchResult { hit: hit(2, 7), record: report(Some(3), "third", "b") },
    ];
    assert_eq!(titles(&results), vec!["first", "second", "third"]);
    assert_eq!(
        records(results),
        vec![
            report(Some(1), "first", "b"),
            report(Some(2), "second", "b"),
            report(Some(3), "third", "b")
        ]
    );
    assert_eq!(titles(&vec![]), Vec::<String>::new());
    assert_eq!(records(vec![]), vec![]);
}

#[test]
fn score_keys_stand_as_the_scores_do() {
    assert_eq!(score_key(0), 0x8000_0000);
    assert_eq!(score_key(0x8000_0000), 0x7fff_ffff);
    assert_eq!(score_key(1.0f32.to_bits()), 0xbf80_0000);
    assert_eq!(score_key((-1.0f32).to_bits()), 0x407f_ffff);
    assert_eq!(score_key(u32::MAX), 0);
    let scores = [
        f32::NEG_INFINITY,
        -1.0e30,
        -2.5,
        -1.0,
        -1.0e-30,
        0.0,
        1.0e-30,
        0.3681,
        1.0,
        2.5,
        17.25,
        1.0e30,
        f32::INFINITY,
    ];
    for pair in scores.windows(2) {
        assert!(pair[0] < pair[1]);
        assert!(score_key(pair[0].to_bits()) < score_key(pair[1].to_bits()));
    }
    assert!(score_key((-0.0f32).to_bits()) < score_key(0.0f32.to_bits()));
}
