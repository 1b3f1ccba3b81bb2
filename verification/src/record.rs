//! The experience report: the unit that is stored and that a search returns.

use vstd::prelude::*;
use crate::key::{decimal, decimal_text};

verus! {

/// One substance taken, as the report states it.
#[derive(Clone, Debug, PartialEq, Eq)]
pub struct SubstanceInfo {
    pub amount: String,
    pub method: String,
    pub substance: String,
    pub form: String,
}

/// What is known about a report besides its text.
#[derive(Clone, Debug, PartialEq, Eq)]
pub struct ReportMeta {
    pub year: Option<u32>,
    /// The stable identifier the report has at its source.
    pub foreign_id: Option<u32>,
    pub gender: Option<String>,
    pub age: Option<u32>,
    pub published: Option<String>,
    pub views: Option<u32>,
}

/// Editorial remarks attached to a report.
#[derive(Clone, Debug, PartialEq, Eq)]
pub struct ErowidNotes {
    pub caution: Vec<String>,
    pub note: Vec<String>,
    pub warning: Vec<String>,
}

/// A complete experience report.
#[derive(Clone, Debug, PartialEq, Eq)]
pub struct ReportRecord {
    pub title: String,
    pub substance: String,
    pub author: String,
    pub body: String,
    pub substance_info: Vec<SubstanceInfo>,
    pub meta: ReportMeta,
    pub erowid_notes: ErowidNotes,
    pub pull_quotes: Vec<String>,
}

/// A substance entry as plain values.
pub struct SubstanceInfoView {
    pub amount: Seq<char>,
    pub method: Seq<char>,
    pub substance: Seq<char>,
    pub form: Seq<char>,
}

/// The facts about a report as plain values.
pub struct ReportMetaView {
    pub year: Option<u32>,
    pub foreign_id: Option<u32>,
    pub gender: Option<Seq<char>>,
    pub age: Option<u32>,
    pub published: Option<Seq<char>>,
    pub views: Option<u32>,
}

/// Editorial remarks as plain values.
pub struct ErowidNotesView {
    pub caution: Seq<Seq<char>>,
    pub note: Seq<Seq<char>>,
    pub warning: Seq<Seq<char>>,
}

/// A report as plain values: what it says, whatever holds it in memory.
pub struct ReportRecordView {
    pub title: Seq<char>,
    pub substance: Seq<char>,
    pub author: Seq<char>,
    pub body: Seq<char>,
    pub substance_info: Seq<SubstanceInfoView>,
    pub meta: ReportMetaView,
    pub erowid_notes: ErowidNotesView,
    pub pull_quotes: Seq<Seq<char>>,
}

impl DeepView for SubstanceInfo {
    type V = SubstanceInfoView;

    open spec fn deep_view(&self) -> SubstanceInfoView {
        SubstanceInfoView {
            amount: self.amount@,
            method: self.method@,
            substance: self.substance@,
            form: self.form@,
        }
    }
}

impl View for SubstanceInfo {
    type V = SubstanceInfoView;

    open spec fn view(&self) -> SubstanceInfoView {
        self.deep_view()
    }
}

impl DeepView for ReportMeta {
    type V = ReportMetaView;

    open spec fn deep_view(&self) -> ReportMetaView {
        ReportMetaView {
            year: self.year,
            foreign_id: self.foreign_id,
            gender: self.gender.deep_view(),
            age: self.age,
            published: self.published.deep_view(),
            views: self.views,
        }
    }
}

impl View for ReportMeta {
    type V = ReportMetaView;

    open spec fn view(&self) -> ReportMetaView {
        self.deep_view()
    }
}

impl DeepView for ErowidNotes {
    type V = ErowidNotesView;

    open spec fn deep_view(&self) -> ErowidNotesView {
        ErowidNotesView {
            caution: self.caution.deep_view(),
            note: self.note.deep_view(),
            warning: self.warning.deep_view(),
        }
    }
}

impl View for ErowidNotes {
    type V = ErowidNotesView;

    open spec fn view(&self) -> ErowidNotesView {
        self.deep_view()
    }
}

impl DeepView for ReportRecord {
    type V = ReportRecordView;

    open spec fn deep_view(&self) -> ReportRecordView {
        ReportRecordView {
            title: self.title@,
            substance: self.substance@,
            author: self.author@,
            body: self.body@,
            substance_info: self.substance_info.deep_view(),
            meta: self.meta@,
            erowid_notes: self.erowid_notes@,
            pull_quotes: self.pull_quotes.deep_view(),
        }
    }
}

impl View for ReportRecord {
    type V = ReportRecordView;

    open spec fn view(&self) -> ReportRecordView {
        self.deep_view()
    }
}

impl ReportRecordView {
    /// A record may be imported only if it carries a foreign identifier other
    /// than zero.
    pub open spec fn is_eligible(self) -> bool {
        self.meta.foreign_id matches Some(id) && id != 0
    }

    /// The store key of the record, which is also the `id` the index keeps
    /// for it. Meaningful for eligible records.
    pub open spec fn key(self) -> Seq<char> {
        decimal(self.meta.foreign_id.unwrap_or(0) as nat)
    }
}

impl ReportRecord {
    /// Whether the record may be imported.
    pub fn eligible(&self) -> (yes: bool)
        ensures
            yes == self@.is_eligible(),
    {
        match self.meta.foreign_id {
            Some(id) => id != 0,
            None => false,
        }
    }

    /// The key under which the record is stored, if it may be imported.
    pub fn store_key(&self) -> (key: Option<String>)
        ensures
            key is Some <==> self@.is_eligible(),
            key matches Some(text) ==> text@ == self@.key(),
    {
        match self.meta.foreign_id {
            Some(id) => {
                if id != 0 {
                    Some(decimal_text(id))
                } else {
                    None
                }
            },
            None => None,
        }
    }
}

} // verus!
