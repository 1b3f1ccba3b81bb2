//! The import pipeline: which operations a bulk source calls for, in which
//! order, and what a failure of one of them means.

use vstd::prelude::*;
use crate::document::{projection, IndexedDocument, IndexedDocumentView};
use crate::error::ErrorKind;
use crate::record::{ReportRecord, ReportRecordView};

verus! {

/// One operation that the caller carries out for the pipeline.
#[derive(Debug, PartialEq, Eq)]
pub enum ImportOp {
    /// Serialise the record at this position of the source and put it into
    /// the document store under `key`, over whatever was there.
    Store { key: String, record: usize },
    /// Add the document to the index writer's pending batch. A document
    /// that cannot be made into an index entry cannot be added: the
    /// operation has failed.
    Index { document: IndexedDocument },
    /// Show how far the import has come.
    Report { percent: usize },
    /// Commit the index writer.
    Commit,
    /// Wait until the index has finished merging.
    Settle,
}

/// An operation as plain values.
pub enum ImportOpView {
    Store { key: Seq<char>, record: int },
    Index { document: IndexedDocumentView },
    Report { percent: int },
    Commit,
    Settle,
}

impl View for ImportOp {
    type V = ImportOpView;

    open spec fn view(&self) -> ImportOpView {
        match self {
            ImportOp::Store { key, record } => ImportOpView::Store { key: key@, record: *record as int },
            ImportOp::Index { document } => ImportOpView::Index { document: document@ },
            ImportOp::Report { percent } => ImportOpView::Report { percent: *percent as int },
            ImportOp::Commit => ImportOpView::Commit,
            ImportOp::Settle => ImportOpView::Settle,
        }
    }
}

/// A record reports progress if the number of records imported before it is
/// a multiple of a hundred, and only in a source of a hundred records or
/// more.
pub open spec fn reports_progress(done: nat, total: nat) -> bool {
    total >= 100 && done % 100 == 0
}

/// The figure shown by a record before which `done` records were imported,
/// in a source of `total`.
pub open spec fn progress_percent(done: nat, total: nat) -> int {
    done as int / (total as int / 100)
}

/// The figure never passes a hundred while records are left to import.
pub proof fn progress_is_a_percentage(done: nat, total: nat)
    requires
        reports_progress(done, total),
        done < total,
    ensures
        0 <= progress_percent(done, total) <= 100,
{
    let step = total as int / 100;
    let hundreds = done as int / 100;
    assert(done == 100 * hundreds);
    assert(hundreds <= step);
    assert(done as int / step <= 100) by (nonlinear_arith)
        requires
            done <= 100 * step,
            step > 0,
    ;
    assert(0 <= done as int / step) by (nonlinear_arith)
        requires
            done >= 0,
            step > 0,
    ;
}

/// The progress figure to show with a record before which `done` records
/// were imported, if one is due.
pub fn progress_due(done: usize, total: usize) -> (percent: Option<usize>)
    ensures
        percent is Some <==> reports_progress(done as nat, total as nat),
        percent matches Some(p) ==> p == progress_percent(done as nat, total as nat),
        percent matches Some(p) ==> done < total ==> p <= 100,
{
    if total >= 100 && done % 100 == 0 {
        let step: usize = total / 100;
        proof {
            if done < total {
                progress_is_a_percentage(done as nat, total as nat);
            }
        }
        Some(done / step)
    } else {
        None
    }
}

/// The operations that the record at position `at` calls for, when `done`
/// records were imported before it.
pub open spec fn record_ops(records: Seq<ReportRecordView>, at: int, done: nat) -> Seq<ImportOpView> {
    let record = records[at];
    if !record.is_eligible() {
        Seq::empty()
    } else {
        let kept = seq![
            ImportOpView::Store { key: record.key(), record: at },
            ImportOpView::Index { document: projection(record) },
        ];
        if reports_progress(done, records.len()) {
            kept.push(ImportOpView::Report { percent: progress_percent(done, records.len()) })
        } else {
            kept
        }
    }
}

/// How many records are imported once the one at `at` is dealt with.
pub open spec fn done_after(records: Seq<ReportRecordView>, at: int, done: nat) -> nat {
    if records[at].is_eligible() {
        done + 1
    } else {
        done
    }
}

/// The operations from position `at` of the source to the end of the run.
pub open spec fn plan_from(records: Seq<ReportRecordView>, at: int, done: nat) -> Seq<ImportOpView>
    decreases records.len() - at,
{
    if at < 0 || at >= records.len() {
        seq![ImportOpView::Commit, ImportOpView::Settle]
    } else {
        record_ops(records, at, done) + plan_from(records, at + 1, done_after(records, at, done))
    }
}

/// Every operation of an import of `records`, in the order in which they are
/// carried out: for each eligible record its store write, then its index
/// entry; at the end one commit and the wait for merges.
pub open spec fn plan(records: Seq<ReportRecordView>) -> Seq<ImportOpView> {
    plan_from(records, 0, 0)
}

/// The kind of operation that the caller was last asked to carry out.
#[derive(Clone, Copy, Debug, PartialEq, Eq, Structural)]
pub enum Outstanding {
    Nothing,
    Store,
    Index,
    Report,
    Commit,
    Settle,
}

/// The kind of an operation.
pub open spec fn kind_of(op: ImportOpView) -> Outstanding {
    match op {
        ImportOpView::Store { .. } => Outstanding::Store,
        ImportOpView::Index { .. } => Outstanding::Index,
        ImportOpView::Report { .. } => Outstanding::Report,
        ImportOpView::Commit => Outstanding::Commit,
        ImportOpView::Settle => Outstanding::Settle,
    }
}

/// What the failure of an operation means for the run. A store write that
/// fails, be it in serialising or in writing, ends the run, and so does any
/// failure of the index. A progress report that cannot be shown does not.
pub open spec fn failure_of(outstanding: Outstanding) -> Option<ErrorKind> {
    match outstanding {
        Outstanding::Nothing => None,
        Outstanding::Store => Some(ErrorKind::StoreIo),
        Outstanding::Index => Some(ErrorKind::IndexIo),
        Outstanding::Report => None,
        Outstanding::Commit => Some(ErrorKind::IndexIo),
        Outstanding::Settle => Some(ErrorKind::IndexIo),
    }
}

/// What the run tells its caller to do next.
#[derive(Debug, PartialEq, Eq)]
pub enum ImportStep {
    /// Carry out this operation, then report how it went.
    Perform(ImportOp),
    /// Every operation was carried out.
    Finished,
    /// The run was given up.
    Aborted(ErrorKind),
}

/// A step as plain values.
pub enum ImportStepView {
    Perform(ImportOpView),
    Finished,
    Aborted(ErrorKind),
}

impl View for ImportStep {
    type V = ImportStepView;

    open spec fn view(&self) -> ImportStepView {
        match self {
            ImportStep::Perform(op) => ImportStepView::Perform(op@),
            ImportStep::Finished => ImportStepView::Finished,
            ImportStep::Aborted(kind) => ImportStepView::Aborted(*kind),
        }
    }
}

/// A run as plain values: the source, the operations still to come, the kind
/// of the one handed out last, and the failure that ended the run, if any.
pub struct ImportRunView {
    pub records: Seq<ReportRecordView>,
    pub remaining: Seq<ImportOpView>,
    pub outstanding: Outstanding,
    pub failure: Option<ErrorKind>,
}

/// The run after its caller reports on the outstanding operation, and the
/// step it answers with. A run that was given up stays so. A failure that
/// counts ends the run before anything else is handed out. Otherwise the
/// next operation of the plan is handed out, until none is left.
pub open spec fn next(run: ImportRunView, succeeded: bool) -> (ImportRunView, ImportStepView) {
    if run.failure is Some {
        (run, ImportStepView::Aborted(run.failure->0))
    } else if !succeeded && failure_of(run.outstanding) is Some {
        (
            ImportRunView { failure: failure_of(run.outstanding), ..run },
            ImportStepView::Aborted(failure_of(run.outstanding)->0),
        )
    } else if run.remaining.len() == 0 {
        (ImportRunView { outstanding: Outstanding::Nothing, ..run }, ImportStepView::Finished)
    } else {
        (
            ImportRunView {
                remaining: run.remaining.skip(1),
                outstanding: kind_of(run.remaining[0]),
                ..run
            },
            ImportStepView::Perform(run.remaining[0]),
        )
    }
}

/// The operations that a run hands out, one step after the other, to a
/// caller who reports success every time, until the run stops handing out or
/// `steps` steps were taken.
pub open spec fn performed(run: ImportRunView, steps: nat) -> Seq<ImportOpView>
    decreases steps,
{
    if steps == 0 {
        Seq::empty()
    } else {
        match next(run, true).1 {
            ImportStepView::Perform(op) => seq![op] + performed(
                next(run, true).0,
                (steps - 1) as nat,
            ),
            _ => Seq::empty(),
        }
    }
}

/// A run whose operations all succeed hands out the operations that remain,
/// each once and in their order, and nothing else. From its beginning that
/// is the whole plan of the source.
pub proof fn successful_run_performs_the_plan(run: ImportRunView, steps: nat)
    requires
        run.failure is None,
        steps >= run.remaining.len(),
    ensures
        performed(run, steps) == run.remaining,
    decreases steps,
{
    if steps > 0 && run.remaining.len() > 0 {
        successful_run_performs_the_plan(next(run, true).0, (steps - 1) as nat);
        assert(seq![run.remaining[0]] + run.remaining.skip(1) =~= run.remaining);
    } else {
        assert(performed(run, steps) =~= run.remaining);
    }
}

/// Fail fast: when an operation whose failure counts is reported to have
/// failed, the run is given up at once with the error of that operation, and
/// it stays given up whatever is reported later: no further operation is
/// handed out, so no later record is written.
pub proof fn failed_run_stays_aborted(run: ImportRunView, later: bool)
    requires
        run.failure is None,
        failure_of(run.outstanding) is Some,
    ensures
        next(run, false).1 == ImportStepView::Aborted(failure_of(run.outstanding)->0),
        next(run, false).0.remaining == run.remaining,
        next(next(run, false).0, later) == next(run, false),
{
}

enum Stage {
    Scan,
    IndexNext,
    ReportNext,
    SettleNext,
    Finished,
}

/// One import of a bulk source, from its first record to the final commit.
pub struct ImportRun {
    records: Vec<ReportRecord>,
    at: usize,
    done: usize,
    stage: Stage,
    outstanding: Outstanding,
    failure: Option<ErrorKind>,
}

impl ImportRun {
    /// The positions and the stage fit the source.
    pub closed spec fn wf(&self) -> bool {
        &&& self.done <= self.at <= self.records.len()
        &&& (self.stage is IndexNext || self.stage is ReportNext) ==> {
            &&& self.at < self.records.len()
            &&& self.records[self.at as int]@.is_eligible()
        }
        &&& self.stage is ReportNext ==> reports_progress(
            self.done as nat,
            self.records.len() as nat,
        )
        &&& (self.stage is SettleNext || self.stage is Finished) ==> self.at == self.records.len()
    }

    spec fn remaining(&self) -> Seq<ImportOpView> {
        let records = self.records.deep_view();
        let at = self.at as int;
        let done = self.done as nat;
        match self.stage {
            Stage::Scan => plan_from(records, at, done),
            Stage::IndexNext => record_ops(records, at, done).skip(1) + plan_from(
                records,
                at + 1,
                done + 1,
            ),
            Stage::ReportNext => record_ops(records, at, done).skip(2) + plan_from(
                records,
                at + 1,
                done + 1,
            ),
            Stage::SettleNext => seq![ImportOpView::Settle],
            Stage::Finished => Seq::empty(),
        }
    }

    /// The run as plain values.
    pub closed spec fn view(&self) -> ImportRunView {
        ImportRunView {
            records: self.records.deep_view(),
            remaining: self.remaining(),
            outstanding: self.outstanding,
            failure: self.failure,
        }
    }

    /// Starts a run over a decoded source. A source that could not be read
    /// or decoded starts none, so nothing is written for it.
    pub fn begin(source: Option<Vec<ReportRecord>>) -> (run: Result<ImportRun, ErrorKind>)
        ensures
            match source {
                Some(records) => run matches Ok(r) && r.wf() && r@ == (ImportRunView {
                    records: records.deep_view(),
                    remaining: plan(records.deep_view()),
                    outstanding: Outstanding::Nothing,
                    failure: None,
                }),
                None => run == Err::<ImportRun, ErrorKind>(ErrorKind::ImportSource),
            },
    {
        match source {
            Some(records) => Ok(
                ImportRun {
                    records,
                    at: 0,
                    done: 0,
                    stage: Stage::Scan,
                    outstanding: Outstanding::Nothing,
                    failure: None,
                },
            ),
            None => Err(ErrorKind::ImportSource),
        }
    }

    /// The number of records in the source.
    pub fn total(&self) -> (total: usize)
        ensures
            total == self@.records.len(),
    {
        self.records.len()
    }

    /// The record at `position` of the source, which a store operation
    /// refers to.
    pub fn record(&self, position: usize) -> (record: Option<&ReportRecord>)
        ensures
            record is Some <==> position < self@.records.len(),
            record matches Some(r) ==> r@ == self@.records[position as int],
    {
        if position < self.records.len() {
            Some(&self.records[position])
        } else {
            None
        }
    }

    /// Takes the caller's report on the outstanding operation (`succeeded`
    /// counts for nothing where none is outstanding) and says what to do
    /// next.
    pub fn advance(&mut self, succeeded: bool) -> (step: ImportStep)
        requires
            old(self).wf(),
        ensures
            final(self).wf(),
            (final(self)@, step@) == next(old(self)@, succeeded),
    {
        if let Some(kind) = self.failure {
            return ImportStep::Aborted(kind);
        }
        if !succeeded {
            let failed = match self.outstanding {
                Outstanding::Store => Some(ErrorKind::StoreIo),
                Outstanding::Index => Some(ErrorKind::IndexIo),
                Outstanding::Commit => Some(ErrorKind::IndexIo),
                Outstanding::Settle => Some(ErrorKind::IndexIo),
                Outstanding::Report => None,
                Outstanding::Nothing => None,
            };
            if let Some(kind) = failed {
                self.failure = Some(kind);
                return ImportStep::Aborted(kind);
            }
        }
        let total = self.records.len();
        match self.stage {
            Stage::Scan => {
                while self.at < total && !self.records[self.at].eligible()
                    invariant
                        self.wf(),
                        self.stage is Scan,
                        total == self.records.len(),
                        self.records == old(self).records,
                        self.outstanding == old(self).outstanding,
                        self.failure == old(self).failure,
                        self.remaining() == old(self).remaining(),
                    decreases total - self.at,
                {
                    assert(record_ops(self.records.deep_view(), self.at as int, self.done as nat)
                        + plan_from(self.records.deep_view(), self.at + 1, self.done as nat)
                        =~= plan_from(self.records.deep_view(), self.at + 1, self.done as nat));
                    self.at = self.at + 1;
                }
                if self.at >= total {
                    self.stage = Stage::SettleNext;
                    self.outstanding = Outstanding::Commit;
                    assert(old(self).remaining().skip(1) =~= seq![ImportOpView::Settle]);
                    ImportStep::Perform(ImportOp::Commit)
                } else {
                    let key = self.records[self.at].store_key().unwrap();
                    let op = ImportOp::Store { key, record: self.at };
                    self.stage = Stage::IndexNext;
                    self.outstanding = Outstanding::Store;
                    assert(old(self).remaining().skip(1) =~= self.remaining());
                    ImportStep::Perform(op)
                }
            },
            Stage::IndexNext => {
                let document = IndexedDocument::project(&self.records[self.at]).unwrap();
                let ghost before = self.remaining();
                if progress_due(self.done, total).is_some() {
                    self.stage = Stage::ReportNext;
                } else {
                    self.at = self.at + 1;
                    self.done = self.done + 1;
                    self.stage = Stage::Scan;
                }
                self.outstanding = Outstanding::Index;
                assert(before.skip(1) =~= self.remaining());
                ImportStep::Perform(ImportOp::Index { document })
            },
            Stage::ReportNext => {
                let percent = progress_due(self.done, total).unwrap();
                let ghost before = self.remaining();
                self.at = self.at + 1;
                self.done = self.done + 1;
                self.stage = Stage::Scan;
                self.outstanding = Outstanding::Report;
                assert(before.skip(1) =~= self.remaining());
                ImportStep::Perform(ImportOp::Report { percent })
            },
            Stage::SettleNext => {
                self.stage = Stage::Finished;
                self.outstanding = Outstanding::Settle;
                assert(old(self).remaining().skip(1) =~= self.remaining());
                ImportStep::Perform(ImportOp::Settle)
            },
            Stage::Finished => {
                self.outstanding = Outstanding::Nothing;
                ImportStep::Finished
            },
        }
    }
}

} // verus!
