//! What an import does to the two stores, and why they stay in agreement.
//!
//! The stores are modelled as plain values: the document store as a map from
//! key to bytes, the index as the documents a search can see and those that
//! wait for the next commit. How a record becomes bytes is the caller's
//! affair; the theorems hold for every way of doing it.

use vstd::prelude::*;
use crate::document::{projection, IndexedDocumentView};
use crate::import::{done_after, plan, plan_from, record_ops, ImportOpView};
use crate::key::decimal_is_injective;
use crate::record::ReportRecordView;
use crate::store::put;

verus! {

/// The document store and the index, as far as an import touches them.
pub struct Stores {
    /// The document store: key to serialised record.
    pub store: Map<Seq<char>, Seq<u8>>,
    /// Documents added to the index writer since the last commit.
    pub pending: Seq<IndexedDocumentView>,
    /// Documents that a new search sees.
    pub visible: Seq<IndexedDocumentView>,
}

/// The stores after one operation was carried out.
pub open spec fn effect(
    op: ImportOpView,
    records: Seq<ReportRecordView>,
    encode: spec_fn(ReportRecordView) -> Seq<u8>,
    stores: Stores,
) -> Stores {
    match op {
        ImportOpView::Store { key, record } => Stores {
            store: put(stores.store, key, encode(records[record])),
            ..stores
        },
        ImportOpView::Index { document } => Stores {
            pending: stores.pending.push(document),
            ..stores
        },
        ImportOpView::Report { .. } => stores,
        ImportOpView::Commit => Stores {
            pending: Seq::empty(),
            visible: stores.visible + stores.pending,
            ..stores
        },
        ImportOpView::Settle => stores,
    }
}

/// The stores after the operations were carried out one after the other.
pub open spec fn effect_of_all(
    ops: Seq<ImportOpView>,
    records: Seq<ReportRecordView>,
    encode: spec_fn(ReportRecordView) -> Seq<u8>,
    stores: Stores,
) -> Stores
    decreases ops.len(),
{
    if ops.len() == 0 {
        stores
    } else {
        effect_of_all(ops.skip(1), records, encode, effect(ops[0], records, encode, stores))
    }
}

/// The index documents of the eligible records from position `at` on, in the
/// order of the source.
pub open spec fn documents_from(records: Seq<ReportRecordView>, at: int) -> Seq<IndexedDocumentView>
    decreases records.len() - at,
{
    if at < 0 || at >= records.len() {
        Seq::empty()
    } else if records[at].is_eligible() {
        seq![projection(records[at])] + documents_from(records, at + 1)
    } else {
        documents_from(records, at + 1)
    }
}

/// Whether some eligible record from position `at` on has the key `key`.
pub open spec fn writes_key(records: Seq<ReportRecordView>, at: int, key: Seq<char>) -> bool {
    exists|i: int|
        at <= i < records.len() && (#[trigger] records[i]).is_eligible() && records[i].key() == key
}

/// Whether `document` is the projection of some eligible record from position
/// `at` on.
pub open spec fn is_document_of(
    records: Seq<ReportRecordView>,
    at: int,
    document: IndexedDocumentView,
) -> bool {
    exists|i: int|
        at <= i < records.len() && (#[trigger] records[i]).is_eligible() && document == projection(
            records[i],
        )
}

proof fn effect_of_joined(
    first: Seq<ImportOpView>,
    second: Seq<ImportOpView>,
    records: Seq<ReportRecordView>,
    encode: spec_fn(ReportRecordView) -> Seq<u8>,
    stores: Stores,
)
    ensures
        effect_of_all(first + second, records, encode, stores) == effect_of_all(
            second,
            records,
            encode,
            effect_of_all(first, records, encode, stores),
        ),
    decreases first.len(),
{
    if first.len() == 0 {
        assert(first + second =~= second);
    } else {
        assert((first + second).skip(1) =~= first.skip(1) + second);
        effect_of_joined(
            first.skip(1),
            second,
            records,
            encode,
            effect(first[0], records, encode, stores),
        );
    }
}

/// The stores after the records from position `at` on were imported one by
/// one and the index was committed.
spec fn imported(
    records: Seq<ReportRecordView>,
    at: int,
    encode: spec_fn(ReportRecordView) -> Seq<u8>,
    stores: Stores,
) -> Stores
    decreases records.len() - at,
{
    if at < 0 || at >= records.len() {
        Stores { pending: Seq::empty(), visible: stores.visible + stores.pending, ..stores }
    } else if records[at].is_eligible() {
        imported(
            records,
            at + 1,
            encode,
            Stores {
                store: put(stores.store, records[at].key(), encode(records[at])),
                pending: stores.pending.push(projection(records[at])),
                ..stores
            },
        )
    } else {
        imported(records, at + 1, encode, stores)
    }
}

proof fn effect_of_record(
    records: Seq<ReportRecordView>,
    at: int,
    done: nat,
    encode: spec_fn(ReportRecordView) -> Seq<u8>,
    stores: Stores,
)
    requires
        0 <= at < records.len(),
        records[at].is_eligible(),
    ensures
        effect_of_all(record_ops(records, at, done), records, encode, stores) == (Stores {
            store: put(stores.store, records[at].key(), encode(records[at])),
            pending: stores.pending.push(projection(records[at])),
            ..stores
        }),
{
    let ops = record_ops(records, at, done);
    let one = effect(ops[0], records, encode, stores);
    let two = effect(ops[1], records, encode, one);
    assert(ops.skip(1)[0] == ops[1]);
    assert(ops.skip(1).skip(1) =~= ops.skip(2));
    if ops.len() == 3 {
        assert(ops.skip(2)[0] == ops[2]);
        assert(ops.skip(2).skip(1).len() == 0);
        assert(effect_of_all(ops.skip(2).skip(1), records, encode, two) == two);
        assert(effect_of_all(ops.skip(2), records, encode, two) == two);
    } else {
        assert(ops.skip(2).len() == 0);
        assert(effect_of_all(ops.skip(2), records, encode, two) == two);
    }
    assert(effect_of_all(ops.skip(1), records, encode, one) == two);
}

proof fn effect_of_plan(
    records: Seq<ReportRecordView>,
    at: int,
    done: nat,
    encode: spec_fn(ReportRecordView) -> Seq<u8>,
    stores: Stores,
)
    requires
        0 <= at <= records.len(),
    ensures
        effect_of_all(plan_from(records, at, done), records, encode, stores) == imported(
            records,
            at,
            encode,
            stores,
        ),
    decreases records.len() - at,
{
    if at >= records.len() {
        let ops = plan_from(records, at, done);
        let one = effect(ops[0], records, encode, stores);
        assert(ops.skip(1)[0] == ops[1]);
        assert(ops.skip(1).skip(1).len() == 0);
        assert(effect_of_all(ops.skip(1).skip(1), records, encode, one) == one);
        assert(effect_of_all(ops.skip(1), records, encode, one) == one);
    } else {
        let ops = record_ops(records, at, done);
        let rest = plan_from(records, at + 1, done_after(records, at, done));
        effect_of_joined(ops, rest, records, encode, stores);
        if records[at].is_eligible() {
            effect_of_record(records, at, done, encode, stores);
        } else {
            assert(ops.len() == 0);
        }
        effect_of_plan(
            records,
            at + 1,
            done_after(records, at, done),
            encode,
            effect_of_all(ops, records, encode, stores),
        );
    }
}

proof fn imported_index(
    records: Seq<ReportRecordView>,
    at: int,
    encode: spec_fn(ReportRecordView) -> Seq<u8>,
    stores: Stores,
)
    requires
        0 <= at <= records.len(),
    ensures
        imported(records, at, encode, stores).pending == Seq::<IndexedDocumentView>::empty(),
        imported(records, at, encode, stores).visible == stores.visible + stores.pending
            + documents_from(records, at),
    decreases records.len() - at,
{
    if at >= records.len() {
        assert(stores.visible + stores.pending + documents_from(records, at) =~= stores.visible
            + stores.pending);
    } else if records[at].is_eligible() {
        let then = Stores {
            store: put(stores.store, records[at].key(), encode(records[at])),
            pending: stores.pending.push(projection(records[at])),
            ..stores
        };
        imported_index(records, at + 1, encode, then);
        assert(then.visible + then.pending + documents_from(records, at + 1) =~= stores.visible
            + stores.pending + documents_from(records, at));
    } else {
        imported_index(records, at + 1, encode, stores);
    }
}

proof fn imported_store(
    records: Seq<ReportRecordView>,
    at: int,
    encode: spec_fn(ReportRecordView) -> Seq<u8>,
    stores: Stores,
    key: Seq<char>,
)
    requires
        0 <= at <= records.len(),
    ensures
        imported(records, at, encode, stores).store.contains_key(key) <==> stores.store.contains_key(
            key,
        ) || writes_key(records, at, key),
        !writes_key(records, at, key) ==> imported(records, at, encode, stores).store[key]
            == stores.store[key],
    decreases records.len() - at,
{
    if at < records.len() {
        if records[at].is_eligible() {
            let then = Stores {
                store: put(stores.store, records[at].key(), encode(records[at])),
                pending: stores.pending.push(projection(records[at])),
                ..stores
            };
            imported_store(records, at + 1, encode, then, key);
        } else {
            imported_store(records, at + 1, encode, stores, key);
        }
        if writes_key(records, at + 1, key) {
            let i = choose|i: int|
                at + 1 <= i < records.len() && (#[trigger] records[i]).is_eligible()
                    && records[i].key() == key;
            assert(at <= i < records.len() && records[i].is_eligible() && records[i].key() == key);
        }
        if records[at].is_eligible() && records[at].key() == key {
            assert(writes_key(records, at, key));
        }
        if writes_key(records, at, key) && !writes_key(records, at + 1, key) {
            let i = choose|i: int|
                at <= i < records.len() && (#[trigger] records[i]).is_eligible()
                    && records[i].key() == key;
            if i != at {
                assert(at + 1 <= i < records.len() && records[i].is_eligible() && records[i].key()
                    == key);
            }
        }
    }
}

proof fn imported_last(
    records: Seq<ReportRecordView>,
    at: int,
    encode: spec_fn(ReportRecordView) -> Seq<u8>,
    stores: Stores,
    last: int,
)
    requires
        0 <= at <= last < records.len(),
        records[last].is_eligible(),
        !writes_key(records, last + 1, records[last].key()),
    ensures
        imported(records, at, encode, stores).store.contains_key(records[last].key()),
        imported(records, at, encode, stores).store[records[last].key()] == encode(records[last]),
    decreases records.len() - at,
{
    let then = if records[at].is_eligible() {
        Stores {
            store: put(stores.store, records[at].key(), encode(records[at])),
            pending: stores.pending.push(projection(records[at])),
            ..stores
        }
    } else {
        stores
    };
    if at == last {
        imported_store(records, at + 1, encode, then, records[last].key());
    } else {
        imported_last(records, at + 1, encode, then, last);
    }
}

/// An import adds to the searchable index exactly the documents of the
/// eligible records, in the order of the source, behind whatever the index
/// held or had pending before; nothing is left uncommitted.
pub proof fn import_indexes_eligible_records(
    records: Seq<ReportRecordView>,
    encode: spec_fn(ReportRecordView) -> Seq<u8>,
    before: Stores,
)
    ensures
        effect_of_all(plan(records), records, encode, before).pending == Seq::<
            IndexedDocumentView,
        >::empty(),
        effect_of_all(plan(records), records, encode, before).visible == before.visible
            + before.pending + documents_from(records, 0),
{
    effect_of_plan(records, 0, 0, encode, before);
    imported_index(records, 0, encode, before);
}

/// After an import the store holds a key exactly if it held it before or
/// some eligible record of the source has it; every other entry is as it
/// was.
pub proof fn import_stores_eligible_records(
    records: Seq<ReportRecordView>,
    encode: spec_fn(ReportRecordView) -> Seq<u8>,
    before: Stores,
    key: Seq<char>,
)
    ensures
        effect_of_all(plan(records), records, encode, before).store.contains_key(key)
            <==> before.store.contains_key(key) || writes_key(records, 0, key),
        !writes_key(records, 0, key) ==> effect_of_all(
            plan(records),
            records,
            encode,
            before,
        ).store[key] == before.store[key],
{
    effect_of_plan(records, 0, 0, encode, before);
    imported_store(records, 0, encode, before, key);
}

/// A record that may not be imported leaves no trace. No operation of the
/// import writes under the key that its identifier would give, so the store
/// holds there what it held before; and every document that the import adds
/// to the index is the projection of an eligible record.
pub proof fn import_excludes_ineligible_records(
    records: Seq<ReportRecordView>,
    encode: spec_fn(ReportRecordView) -> Seq<u8>,
    before: Stores,
    excluded: int,
)
    requires
        0 <= excluded < records.len(),
        !records[excluded].is_eligible(),
    ensures
        !writes_key(records, 0, records[excluded].key()),
        effect_of_all(plan(records), records, encode, before).store.contains_key(
            records[excluded].key(),
        ) == before.store.contains_key(records[excluded].key()),
        forall|k: int|
            0 <= k < documents_from(records, 0).len() ==> is_document_of(
                records,
                0,
                #[trigger] documents_from(records, 0)[k],
            ),
{
    let key = records[excluded].key();
    assert forall|i: int| 0 <= i < records.len() && (#[trigger] records[i]).is_eligible() implies records[i].key()
        != key by {
        decimal_is_injective(
            records[i].meta.foreign_id.unwrap_or(0) as nat,
            records[excluded].meta.foreign_id.unwrap_or(0) as nat,
        );
    }
    import_stores_eligible_records(records, encode, before, key);
    documents_are_projections(records, 0);
}

proof fn documents_are_projections(records: Seq<ReportRecordView>, at: int)
    requires
        0 <= at <= records.len(),
    ensures
        forall|k: int|
            0 <= k < documents_from(records, at).len() ==> is_document_of(
                records,
                at,
                #[trigger] documents_from(records, at)[k],
            ),
    decreases records.len() - at,
{
    if at < records.len() {
        documents_are_projections(records, at + 1);
        let rest = documents_from(records, at + 1);
        assert forall|k: int| 0 <= k < documents_from(records, at).len() implies is_document_of(
            records,
            at,
            #[trigger] documents_from(records, at)[k],
        ) by {
            let document = documents_from(records, at)[k];
            if records[at].is_eligible() && k == 0 {
                assert(records[at].is_eligible() && document == projection(records[at]));
            } else {
                let j = if records[at].is_eligible() {
                    k - 1
                } else {
                    k
                };
                assert(document == rest[j]);
                assert(is_document_of(records, at + 1, rest[j]));
                let i = choose|i: int|
                    at + 1 <= i < records.len() && (#[trigger] records[i]).is_eligible() && rest[j]
                        == projection(records[i]);
                assert(records[i].is_eligible() && document == projection(records[i]));
            }
        }
    }
}

proof fn plan_shape(records: Seq<ReportRecordView>, at: int, done: nat)
    requires
        0 <= at <= records.len(),
    ensures
        plan_from(records, at, done).len() >= 2,
        plan_from(records, at, done)[plan_from(records, at, done).len() - 2] is Commit,
        forall|k: int|
            0 <= k < plan_from(records, at, done).len() - 2 ==> !(#[trigger] plan_from(
                records,
                at,
                done,
            )[k] is Commit),
    decreases records.len() - at,
{
    if at < records.len() {
        plan_shape(records, at + 1, done_after(records, at, done));
    }
}

proof fn effect_without_commit(
    ops: Seq<ImportOpView>,
    records: Seq<ReportRecordView>,
    encode: spec_fn(ReportRecordView) -> Seq<u8>,
    stores: Stores,
)
    requires
        forall|k: int| 0 <= k < ops.len() ==> !(#[trigger] ops[k] is Commit),
    ensures
        effect_of_all(ops, records, encode, stores).visible == stores.visible,
    decreases ops.len(),
{
    if ops.len() > 0 {
        assert(!(ops[0] is Commit));
        assert forall|k: int| 0 <= k < ops.skip(1).len() implies !(#[trigger] ops.skip(1)[k]
            is Commit) by {
            assert(ops.skip(1)[k] == ops[k + 1]);
        }
        effect_without_commit(ops.skip(1), records, encode, effect(ops[0], records, encode, stores));
    }
}

/// An import that stops before its commit, after any number of its
/// operations, has shown nothing to a search: what the index lets a search
/// see is what it let it see before. Records that are in the store already
/// are not found until a later import commits.
pub proof fn uncommitted_import_is_invisible(
    records: Seq<ReportRecordView>,
    encode: spec_fn(ReportRecordView) -> Seq<u8>,
    before: Stores,
    carried_out: int,
)
    requires
        0 <= carried_out <= plan(records).len() - 2,
    ensures
        effect_of_all(plan(records).take(carried_out), records, encode, before).visible
            == before.visible,
{
    plan_shape(records, 0, 0);
    let ops = plan(records).take(carried_out);
    assert forall|k: int| 0 <= k < ops.len() implies !(#[trigger] ops[k] is Commit) by {
        assert(ops[k] == plan(records)[k]);
    }
    effect_without_commit(ops, records, encode, before);
}

/// Last write wins: after an import, the store holds under the key of an
/// eligible record the bytes of that record, provided no later record of the
/// source has the same foreign identifier. What the store held under that
/// key before, from an earlier import or an earlier record, is gone.
pub proof fn import_last_write_wins(
    records: Seq<ReportRecordView>,
    encode: spec_fn(ReportRecordView) -> Seq<u8>,
    before: Stores,
    last: int,
)
    requires
        0 <= last < records.len(),
        records[last].is_eligible(),
        forall|i: int|
            last < i < records.len() ==> (#[trigger] records[i]).meta.foreign_id
                != records[last].meta.foreign_id,
    ensures
        effect_of_all(plan(records), records, encode, before).store.contains_key(
            records[last].key(),
        ),
        effect_of_all(plan(records), records, encode, before).store[records[last].key()]
            == encode(records[last]),
{
    assert forall|i: int|
        last + 1 <= i < records.len() && (#[trigger] records[i]).is_eligible() implies records[i].key()
        != records[last].key() by {
        decimal_is_injective(
            records[i].meta.foreign_id.unwrap_or(0) as nat,
            records[last].meta.foreign_id.unwrap_or(0) as nat,
        );
    }
    effect_of_plan(records, 0, 0, encode, before);
    imported_last(records, 0, encode, before, last);
}

/// Round trip: if decoding undoes encoding, then after an import the store
/// entry under the key of an eligible record decodes to that record, field
/// for field, provided no later record of the source has the same foreign
/// identifier.
pub proof fn import_round_trip(
    records: Seq<ReportRecordView>,
    encode: spec_fn(ReportRecordView) -> Seq<u8>,
    decode: spec_fn(Seq<u8>) -> Option<ReportRecordView>,
    before: Stores,
    last: int,
)
    requires
        0 <= last < records.len(),
        records[last].is_eligible(),
        forall|i: int|
            last < i < records.len() ==> (#[trigger] records[i]).meta.foreign_id
                != records[last].meta.foreign_id,
        forall|record: ReportRecordView| decode(#[trigger] encode(record)) == Some(record),
    ensures
        effect_of_all(plan(records), records, encode, before).store.contains_key(
            records[last].key(),
        ),
        decode(effect_of_all(plan(records), records, encode, before).store[records[last].key()])
            == Some(records[last]),
{
    import_last_write_wins(records, encode, before, last);
}

} // verus!
