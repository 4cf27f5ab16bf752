use vstd::prelude::*;
use crate::database::store::{
    first_with_uid, has_uid, lemma_first_with_uid_present, lemma_first_with_uid_push,
    lemma_first_with_uid_replaced, replaced, RecordStore,
};
use crate::models::record::SyncedRecord;

verus! {

/// What applying one server record to the local store amounts to.
#[derive(Debug, Clone, Copy, PartialEq, Eq, Structural)]
pub enum Resolution {
    /// The identifier is unknown locally: the record becomes a new row.
    Insert,
    /// The server's record is strictly newer: it overwrites the local one.
    Update,
    /// The local record is as new or newer: nothing is written.
    Keep,
}

/// A write that reconciliation made to the store, for the caller to persist.
pub enum WriteOp<R> {
    Insert(R),
    Update(R),
}

/// Last-write-wins: a record with an unknown identifier is inserted; a known
/// one is overwritten only by a strictly greater `last_updated`.
pub open spec fn resolution<R: SyncedRecord>(existing: Option<R>, incoming: R) -> Resolution {
    match existing {
        None => Resolution::Insert,
        Some(local) => if incoming.spec_last_updated() > local.spec_last_updated() {
            Resolution::Update
        } else {
            Resolution::Keep
        },
    }
}

/// The store after one server record has been applied to it.
pub open spec fn applied_one<R: SyncedRecord>(rows: Seq<R>, incoming: R) -> Seq<R> {
    match resolution(first_with_uid(rows, incoming.spec_uid()), incoming) {
        Resolution::Insert => rows.push(incoming),
        Resolution::Update => replaced(rows, incoming),
        Resolution::Keep => rows,
    }
}

/// The writes that applying one server record makes: none or one.
pub open spec fn writes_one<R: SyncedRecord>(rows: Seq<R>, incoming: R) -> Seq<WriteOp<R>> {
    match resolution(first_with_uid(rows, incoming.spec_uid()), incoming) {
        Resolution::Insert => seq![WriteOp::Insert(incoming)],
        Resolution::Update => seq![WriteOp::Update(incoming)],
        Resolution::Keep => Seq::empty(),
    }
}

/// The store after a whole delta has been applied, record by record and in
/// order. An entry of `None` stands for a record that could not be
/// decrypted; it is passed over.
pub open spec fn applied<R: SyncedRecord>(rows: Seq<R>, delta: Seq<Option<R>>) -> Seq<R>
    decreases delta.len(),
{
    if delta.len() == 0 {
        rows
    } else {
        let before = applied(rows, delta.drop_last());
        match delta.last() {
            Some(incoming) => applied_one(before, incoming),
            None => before,
        }
    }
}

/// The writes made while a whole delta is applied, in order.
pub open spec fn writes<R: SyncedRecord>(rows: Seq<R>, delta: Seq<Option<R>>) -> Seq<WriteOp<R>>
    decreases delta.len(),
{
    if delta.len() == 0 {
        Seq::empty()
    } else {
        let earlier = writes(rows, delta.drop_last());
        match delta.last() {
            Some(incoming) => earlier + writes_one(applied(rows, delta.drop_last()), incoming),
            None => earlier,
        }
    }
}

/// Decides what to do with one server record, given the local record with
/// the same identifier, if there is one.
pub fn resolve<R: SyncedRecord>(existing: &Option<R>, incoming: &R) -> (decision: Resolution)
    ensures
        decision == resolution(*existing, *incoming),
{
    match existing {
        None => Resolution::Insert,
        Some(local) => {
            if incoming.last_updated() > local.last_updated() {
                Resolution::Update
            } else {
                Resolution::Keep
            }
        },
    }
}

/// Applies one server record to the store and reports the write it made.
pub fn apply_record<R: SyncedRecord>(store: &mut RecordStore<R>, incoming: R) -> (written: Option<
    WriteOp<R>,
>)
    ensures
        final(store)@ == applied_one(old(store)@, incoming),
        written matches Some(op) ==> writes_one(old(store)@, incoming) == seq![op],
        written is None ==> writes_one(old(store)@, incoming) == Seq::<WriteOp<R>>::empty(),
{
    let existing = store.fetch_by_id(incoming.uid());
    match resolve(&existing, &incoming) {
        Resolution::Insert => {
            store.insert(incoming.duplicate());
            Some(WriteOp::Insert(incoming))
        },
        Resolution::Update => {
            store.update(&incoming);
            Some(WriteOp::Update(incoming))
        },
        Resolution::Keep => None,
    }
}

/// Applies a server delta to the store, record by record, and returns the
/// writes it made, in order, so that they can be persisted. Entries of `None`
/// (records that could not be decrypted) are passed over.
pub fn apply_delta<R: SyncedRecord>(store: &mut RecordStore<R>, delta: &Vec<Option<R>>) -> (ops:
    Vec<WriteOp<R>>)
    ensures
        final(store)@ == applied(old(store)@, delta@),
        ops@ == writes(old(store)@, delta@),
{
    let mut ops: Vec<WriteOp<R>> = Vec::new();
    let n = delta.len();
    let mut i: usize = 0;
    while i < n
        invariant
            n == delta@.len(),
            i <= n,
            store@ == applied(old(store)@, delta@.take(i as int)),
            ops@ == writes(old(store)@, delta@.take(i as int)),
        decreases n - i,
    {
        proof {
            let next = delta@.take(i + 1);
            assert(next.drop_last() =~= delta@.take(i as int));
            assert(next.last() == delta@[i as int]);
        }
        match &delta[i] {
            Some(incoming) => {
                match apply_record(store, incoming.duplicate()) {
                    Some(op) => {
                        ops.push(op);
                    },
                    None => {
                        assert(ops@ + Seq::<WriteOp<R>>::empty() =~= ops@);
                    },
                }
            },
            None => {},
        }
        i += 1;
    }
    assert(delta@.take(n as int) =~= delta@);
    ops
}

/// The store already holds, under `record`'s identifier, a row that is at
/// least as new as `record`.
pub open spec fn covers<R: SyncedRecord>(rows: Seq<R>, record: R) -> bool {
    first_with_uid(rows, record.spec_uid()) matches Some(local)
        && local.spec_last_updated() >= record.spec_last_updated()
}

/// The store covers every record of the delta.
pub open spec fn covers_all<R: SyncedRecord>(rows: Seq<R>, delta: Seq<Option<R>>) -> bool {
    forall|k: int|
        0 <= k < delta.len() ==> ((#[trigger] delta[k]) matches Some(record) ==> covers(
            rows,
            record,
        ))
}

/// No two rows share an identifier.
pub open spec fn unique_uids<R: SyncedRecord>(rows: Seq<R>) -> bool {
    forall|i: int, j: int|
        0 <= i < j < rows.len() ==> (#[trigger] rows[i]).spec_uid() != (#[trigger] rows[j]).spec_uid()
}

/// A record that the store covers changes nothing and causes no write.
pub proof fn lemma_covered_is_kept<R: SyncedRecord>(rows: Seq<R>, record: R)
    requires
        covers(rows, record),
    ensures
        applied_one(rows, record) == rows,
        writes_one(rows, record) == Seq::<WriteOp<R>>::empty(),
{
}

/// Once a record has been applied, the store covers it.
pub proof fn lemma_applied_one_covers<R: SyncedRecord>(rows: Seq<R>, record: R)
    ensures
        covers(applied_one(rows, record), record),
{
    let uid = record.spec_uid();
    lemma_first_with_uid_present(rows, uid);
    lemma_first_with_uid_push(rows, record, uid);
    lemma_first_with_uid_replaced(rows, record, uid);
}

/// Applying a record never uncovers another: timestamps under an identifier
/// only grow.
pub proof fn lemma_applied_one_keeps_cover<R: SyncedRecord>(rows: Seq<R>, incoming: R, other: R)
    requires
        covers(rows, other),
    ensures
        covers(applied_one(rows, incoming), other),
{
    let uid = other.spec_uid();
    lemma_first_with_uid_present(rows, uid);
    lemma_first_with_uid_present(rows, incoming.spec_uid());
    lemma_first_with_uid_push(rows, incoming, uid);
    lemma_first_with_uid_replaced(rows, incoming, uid);
}

/// Applying a delta never uncovers a record.
pub proof fn lemma_applied_keeps_cover<R: SyncedRecord>(rows: Seq<R>, delta: Seq<Option<R>>, other: R)
    requires
        covers(rows, other),
    ensures
        covers(applied(rows, delta), other),
    decreases delta.len(),
{
    if delta.len() > 0 {
        lemma_applied_keeps_cover(rows, delta.drop_last(), other);
        if let Some(incoming) = delta.last() {
            lemma_applied_one_keeps_cover(applied(rows, delta.drop_last()), incoming, other);
        }
    }
}

/// After a delta has been applied, the store covers each of its records.
pub proof fn lemma_applied_covers_all<R: SyncedRecord>(rows: Seq<R>, delta: Seq<Option<R>>)
    ensures
        covers_all(applied(rows, delta), delta),
    decreases delta.len(),
{
    if delta.len() > 0 {
        let front = delta.drop_last();
        let before = applied(rows, front);
        lemma_applied_covers_all(rows, front);
        assert forall|k: int| 0 <= k < delta.len() implies ((#[trigger] delta[k]) matches Some(
            record,
        ) ==> covers(applied(rows, delta), record)) by {
            if let Some(record) = delta[k] {
                if k < front.len() {
                    assert(front[k] == delta[k]);
                    assert(covers(before, record));
                } else {
                    lemma_applied_one_covers(before, record);
                }
                if let Some(incoming) = delta.last() {
                    if k < front.len() {
                        lemma_applied_one_keeps_cover(before, incoming, record);
                    }
                }
            }
        }
    }
}

/// A delta whose every record the store covers changes nothing and causes no
/// write.
pub proof fn lemma_covered_delta_is_kept<R: SyncedRecord>(rows: Seq<R>, delta: Seq<Option<R>>)
    requires
        covers_all(rows, delta),
    ensures
        applied(rows, delta) == rows,
        writes(rows, delta) == Seq::<WriteOp<R>>::empty(),
    decreases delta.len(),
{
    if delta.len() > 0 {
        let front = delta.drop_last();
        assert forall|k: int| 0 <= k < front.len() implies ((#[trigger] front[k]) matches Some(
            record,
        ) ==> covers(rows, record)) by {
            assert(front[k] == delta[k]);
        }
        lemma_covered_delta_is_kept(rows, front);
        if let Some(incoming) = delta.last() {
            assert(delta[delta.len() - 1] == delta.last());
            lemma_covered_is_kept(rows, incoming);
            assert(writes(rows, front) + Seq::<WriteOp<R>>::empty() =~= writes(rows, front));
        }
    }
}

/// Idempotence: applying the same server delta a second time leaves the
/// store as the first application left it, and makes no write.
pub proof fn lemma_apply_twice<R: SyncedRecord>(rows: Seq<R>, delta: Seq<Option<R>>)
    ensures
        applied(applied(rows, delta), delta) == applied(rows, delta),
        writes(applied(rows, delta), delta) == Seq::<WriteOp<R>>::empty(),
{
    lemma_applied_covers_all(rows, delta);
    lemma_covered_delta_is_kept(applied(rows, delta), delta);
}

/// Conflict resolution: a server record that is strictly newer than the
/// local one replaces it, so that a lookup then finds the server's record; a
/// server record that is as old or older leaves the store untouched.
pub proof fn lemma_conflict<R: SyncedRecord>(rows: Seq<R>, local: R, incoming: R)
    requires
        first_with_uid(rows, incoming.spec_uid()) == Some(local),
    ensures
        incoming.spec_last_updated() > local.spec_last_updated() ==> first_with_uid(
            applied_one(rows, incoming),
            incoming.spec_uid(),
        ) == Some(incoming) && applied_one(rows, incoming).len() == rows.len(),
        incoming.spec_last_updated() <= local.spec_last_updated() ==> applied_one(rows, incoming)
            == rows,
{
    lemma_first_with_uid_present(rows, incoming.spec_uid());
    lemma_first_with_uid_replaced(rows, incoming, incoming.spec_uid());
}

/// New records: a server record whose identifier is unknown locally is
/// inserted exactly once; applying it again adds nothing.
pub proof fn lemma_insert_once<R: SyncedRecord>(rows: Seq<R>, incoming: R)
    requires
        !has_uid(rows, incoming.spec_uid()),
    ensures
        applied_one(rows, incoming) == rows.push(incoming),
        writes_one(rows, incoming) == seq![WriteOp::Insert(incoming)],
        applied_one(applied_one(rows, incoming), incoming) == rows.push(incoming),
        writes_one(applied_one(rows, incoming), incoming) == Seq::<WriteOp<R>>::empty(),
{
    lemma_first_with_uid_present(rows, incoming.spec_uid());
    lemma_applied_one_covers(rows, incoming);
    lemma_covered_is_kept(applied_one(rows, incoming), incoming);
}

/// Applying a record to a store without duplicate identifiers leaves it
/// without duplicates.
pub proof fn lemma_applied_one_unique<R: SyncedRecord>(rows: Seq<R>, incoming: R)
    requires
        unique_uids(rows),
    ensures
        unique_uids(applied_one(rows, incoming)),
{
    let after = applied_one(rows, incoming);
    lemma_first_with_uid_present(rows, incoming.spec_uid());
    assert forall|i: int, j: int| 0 <= i < j < after.len() implies (#[trigger] after[i]).spec_uid()
        != (#[trigger] after[j]).spec_uid() by {
        if after.len() > rows.len() {
            if j == rows.len() {
                assert(rows[i].spec_uid() != incoming.spec_uid());
            } else {
                assert(rows[i].spec_uid() != rows[j].spec_uid());
            }
        } else {
            assert(rows[i].spec_uid() != rows[j].spec_uid());
            assert(after[i].spec_uid() == rows[i].spec_uid());
            assert(after[j].spec_uid() == rows[j].spec_uid());
        }
    }
}

/// Reconciliation never introduces a duplicate identifier.
pub proof fn lemma_applied_unique<R: SyncedRecord>(rows: Seq<R>, delta: Seq<Option<R>>)
    requires
        unique_uids(rows),
    ensures
        unique_uids(applied(rows, delta)),
    decreases delta.len(),
{
    if delta.len() > 0 {
        lemma_applied_unique(rows, delta.drop_last());
        if let Some(incoming) = delta.last() {
            lemma_applied_one_unique(applied(rows, delta.drop_last()), incoming);
        }
    }
}

} // verus!
