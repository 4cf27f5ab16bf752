use vstd::prelude::*;
use crate::models::record::SyncedRecord;

verus! {

/// The first row of `rows` whose identifier is `uid`, if there is one.
pub open spec fn first_with_uid<R: SyncedRecord>(rows: Seq<R>, uid: Seq<char>) -> Option<R>
    decreases rows.len(),
{
    if rows.len() == 0 {
        None
    } else if rows[0].spec_uid() == uid {
        Some(rows[0])
    } else {
        first_with_uid(rows.subrange(1, rows.len() as int), uid)
    }
}

/// Whether some row of `rows` carries the identifier `uid`.
pub open spec fn has_uid<R: SyncedRecord>(rows: Seq<R>, uid: Seq<char>) -> bool {
    exists|i: int| 0 <= i < rows.len() && (#[trigger] rows[i]).spec_uid() == uid
}

/// `rows` with every row that shares `record`'s identifier replaced by
/// `record`; the other rows, and the order, stay as they are.
pub open spec fn replaced<R: SyncedRecord>(rows: Seq<R>, record: R) -> Seq<R> {
    Seq::new(
        rows.len(),
        |i: int| if rows[i].spec_uid() == record.spec_uid() { record } else { rows[i] },
    )
}

/// The rows changed at or after `timestamp`, in store order.
pub open spec fn changed_since<R: SyncedRecord>(rows: Seq<R>, timestamp: int) -> Seq<R> {
    rows.filter(|r: R| r.spec_last_updated() >= timestamp)
}

/// The rows come in the order of their last change, the earliest first.
/// Rows that were changed at the same time may come in any order.
pub open spec fn ascending_stamps<R: SyncedRecord>(rows: Seq<R>) -> bool {
    forall|i: int, j: int|
        0 <= i <= j < rows.len() ==> (#[trigger] rows[i]).spec_last_updated() <= (
        #[trigger] rows[j]).spec_last_updated()
}

/// `found` holds the rows of `rows` changed at or after `timestamp`, each as
/// often as the store holds it and nothing else, in the order of their last
/// change.
pub open spec fn is_changed_since<R: SyncedRecord>(rows: Seq<R>, timestamp: int, found: Seq<R>) -> bool {
    &&& found.to_multiset() == changed_since(rows, timestamp).to_multiset()
    &&& ascending_stamps(found)
}

/// How many leading rows of `rows` were last changed at or before `stamp`.
pub open spec fn stamp_rank<R: SyncedRecord>(rows: Seq<R>, stamp: int) -> nat
    decreases rows.len(),
{
    if rows.len() > 0 && rows[0].spec_last_updated() <= stamp {
        1 + stamp_rank(rows.subrange(1, rows.len() as int), stamp)
    } else {
        0
    }
}

/// The rank is a place among the rows; every row before it was changed at
/// or before `stamp`, and the row at it later.
pub proof fn lemma_stamp_rank<R: SyncedRecord>(rows: Seq<R>, stamp: int)
    ensures
        stamp_rank(rows, stamp) <= rows.len(),
        forall|i: int|
            0 <= i < stamp_rank(rows, stamp) ==> (#[trigger] rows[i]).spec_last_updated() <= stamp,
        stamp_rank(rows, stamp) < rows.len() ==> rows[stamp_rank(rows, stamp) as int].spec_last_updated()
            > stamp,
    decreases rows.len(),
{
    if rows.len() > 0 && rows[0].spec_last_updated() <= stamp {
        let rest = rows.subrange(1, rows.len() as int);
        lemma_stamp_rank(rest, stamp);
        assert forall|i: int| 0 <= i < stamp_rank(rows, stamp) implies (
        #[trigger] rows[i]).spec_last_updated() <= stamp by {
            if i > 0 {
                assert(rest[i - 1] == rows[i]);
            }
        }
        if stamp_rank(rows, stamp) < rows.len() {
            assert(rest[stamp_rank(rest, stamp) as int] == rows[stamp_rank(rows, stamp) as int]);
        }
    }
}

/// A row put in at the rank of its stamp keeps the rows in the order of
/// their last change, and adds exactly that row.
pub proof fn lemma_insert_at_rank<R: SyncedRecord>(rows: Seq<R>, record: R)
    requires
        ascending_stamps(rows),
    ensures
        ascending_stamps(rows.insert(stamp_rank(rows, record.spec_last_updated()) as int, record)),
        rows.insert(stamp_rank(rows, record.spec_last_updated()) as int, record).to_multiset()
            == rows.to_multiset().insert(record),
{
    let stamp = record.spec_last_updated();
    lemma_stamp_rank(rows, stamp);
    let place = stamp_rank(rows, stamp) as int;
    let after = rows.insert(place, record);
    assert forall|i: int, j: int| 0 <= i <= j < after.len() implies (
    #[trigger] after[i]).spec_last_updated() <= (#[trigger] after[j]).spec_last_updated() by {
        if i < place {
            assert(after[i] == rows[i]);
        } else if i > place {
            assert(after[i] == rows[i - 1]);
        }
        if j < place {
            assert(after[j] == rows[j]);
        } else if j > place {
            assert(after[j] == rows[j - 1]);
            assert(rows[place].spec_last_updated() <= rows[j - 1].spec_last_updated());
        }
    }
    assert(after.remove(place) =~= rows);
    vstd::seq_lib::to_multiset_remove(after, place);
    assert(after[place] == record);
    after.to_multiset_ensures();
    assert(after.contains(record));
    assert(after.to_multiset() =~= rows.to_multiset().insert(record));
}

/// The rows whose identifier is `uid`, in store order.
pub open spec fn rows_with_uid<R: SyncedRecord>(rows: Seq<R>, uid: Seq<char>) -> Seq<R> {
    rows.filter(|r: R| r.spec_uid() == uid)
}

/// For each identifier of `uids` in turn, the rows that carry it.
pub open spec fn rows_with_uids<R: SyncedRecord>(rows: Seq<R>, uids: Seq<Seq<char>>) -> Seq<R>
    decreases uids.len(),
{
    if uids.len() == 0 {
        Seq::empty()
    } else {
        rows_with_uids(rows, uids.drop_last()) + rows_with_uid(rows, uids.last())
    }
}

/// If no row before `i` carries `uid` and row `i` does, row `i` is the first.
pub proof fn lemma_first_with_uid_at<R: SyncedRecord>(rows: Seq<R>, uid: Seq<char>, i: int)
    requires
        0 <= i < rows.len(),
        rows[i].spec_uid() == uid,
        forall|j: int| 0 <= j < i ==> (#[trigger] rows[j]).spec_uid() != uid,
    ensures
        first_with_uid(rows, uid) == Some(rows[i]),
    decreases i,
{
    if i > 0 {
        let rest = rows.subrange(1, rows.len() as int);
        assert(rows[0].spec_uid() != uid);
        assert forall|j: int| 0 <= j < i - 1 implies (#[trigger] rest[j]).spec_uid() != uid by {
            assert(rest[j] == rows[j + 1]);
        }
        lemma_first_with_uid_at(rest, uid, i - 1);
    }
}

/// If no row carries `uid`, there is no first one.
pub proof fn lemma_first_with_uid_none<R: SyncedRecord>(rows: Seq<R>, uid: Seq<char>)
    requires
        !has_uid(rows, uid),
    ensures
        first_with_uid(rows, uid) is None,
    decreases rows.len(),
{
    if rows.len() > 0 {
        let rest = rows.subrange(1, rows.len() as int);
        assert(rows[0].spec_uid() != uid);
        assert(!has_uid(rest, uid)) by {
            if has_uid(rest, uid) {
                let j = choose|j: int| 0 <= j < rest.len() && (#[trigger] rest[j]).spec_uid() == uid;
                assert(rows[j + 1].spec_uid() == uid);
            }
        }
        lemma_first_with_uid_none(rest, uid);
    }
}

/// Puts a row among rows that are in the order of their last change: behind
/// every row changed at or before it, and before the first changed later.
pub fn insert_by_stamp<R: SyncedRecord>(rows: &mut Vec<R>, record: R)
    ensures
        final(rows)@ == old(rows)@.insert(
            stamp_rank(old(rows)@, record.spec_last_updated()) as int,
            record,
        ),
{
    let n = rows.len();
    let stamp = record.last_updated();
    let mut place: usize = 0;
    assert(rows@.subrange(0, n as int) =~= rows@);
    while place < n && rows[place].last_updated() <= stamp
        invariant
            n == rows@.len(),
            rows@ == old(rows)@,
            stamp == record.spec_last_updated(),
            place <= n,
            stamp_rank(rows@, stamp as int) == place + stamp_rank(
                rows@.subrange(place as int, n as int),
                stamp as int,
            ),
        decreases n - place,
    {
        proof {
            let rest = rows@.subrange(place as int, n as int);
            assert(rest[0] == rows@[place as int]);
            assert(rest.subrange(1, rest.len() as int) =~= rows@.subrange(place + 1, n as int));
        }
        place += 1;
    }
    proof {
        let rest = rows@.subrange(place as int, n as int);
        if place < n {
            assert(rest[0] == rows@[place as int]);
        }
    }
    rows.insert(place, record);
}

/// A local repository of one kind of synchronised record.
///
/// The store keeps its rows in insertion order and never removes one:
/// deletion is a flag on the record. Identifiers are not forced to be
/// unique; a lookup finds the first row with the identifier and an update
/// rewrites every row that carries it.
pub struct RecordStore<R: SyncedRecord> {
    pub rows: Vec<R>,
}

impl<R: SyncedRecord> View for RecordStore<R> {
    type V = Seq<R>;

    open spec fn view(&self) -> Seq<R> {
        self.rows@
    }
}

impl<R: SyncedRecord> RecordStore<R> {
    /// An empty store.
    pub fn new() -> (store: Self)
        ensures
            store@ == Seq::<R>::empty(),
    {
        RecordStore { rows: Vec::new() }
    }

    /// A store that holds `rows`, in that order.
    pub fn from_rows(rows: Vec<R>) -> (store: Self)
        ensures
            store@ == rows@,
    {
        RecordStore { rows }
    }

    /// The number of rows, deleted ones included.
    pub fn len(&self) -> (n: usize)
        ensures
            n == self@.len(),
    {
        self.rows.len()
    }

    /// Appends `record` as a new row.
    pub fn insert(&mut self, record: R)
        ensures
            final(self)@ == old(self)@.push(record),
    {
        self.rows.push(record);
    }

    /// Rewrites every row that carries `record`'s identifier to `record`.
    pub fn update(&mut self, record: &R)
        ensures
            final(self)@ == replaced(old(self)@, *record),
    {
        let n = self.rows.len();
        let mut i: usize = 0;
        while i < n
            invariant
                n == self.rows@.len(),
                n == old(self)@.len(),
                i <= n,
                forall|j: int| 0 <= j < i ==> self.rows@[j] == replaced(old(self)@, *record)[j],
                forall|j: int| i <= j < n ==> self.rows@[j] == old(self)@[j],
            decreases n - i,
        {
            if *self.rows[i].uid() == *record.uid() {
                self.rows.set(i, record.duplicate());
            }
            i += 1;
        }
        assert(self.rows@ =~= replaced(old(self)@, *record));
    }

    /// The first row with identifier `uid`, or `None` if no row has it.
    pub fn fetch_by_id(&self, uid: &String) -> (found: Option<R>)
        ensures
            found == first_with_uid(self@, uid@),
    {
        let n = self.rows.len();
        let mut i: usize = 0;
        while i < n
            invariant
                n == self.rows@.len(),
                i <= n,
                forall|j: int| 0 <= j < i ==> (#[trigger] self.rows@[j]).spec_uid() != uid@,
            decreases n - i,
        {
            if *self.rows[i].uid() == *uid {
                proof {
                    lemma_first_with_uid_at(self.rows@, uid@, i as int);
                }
                return Some(self.rows[i].duplicate());
            }
            i += 1;
        }
        proof {
            lemma_first_with_uid_none(self.rows@, uid@);
        }
        None
    }

    /// Whether some row carries the identifier `uid`.
    pub fn contains(&self, uid: &String) -> (present: bool)
        ensures
            present == has_uid(self@, uid@),
    {
        let n = self.rows.len();
        let mut i: usize = 0;
        while i < n
            invariant
                n == self.rows@.len(),
                i <= n,
                forall|j: int| 0 <= j < i ==> (#[trigger] self.rows@[j]).spec_uid() != uid@,
            decreases n - i,
        {
            if *self.rows[i].uid() == *uid {
                return true;
            }
            i += 1;
        }
        false
    }

    /// Every row, deleted ones included, in store order.
    pub fn fetch_all(&self) -> (all: Vec<R>)
        ensures
            all@ == self@,
    {
        let n = self.rows.len();
        let mut all: Vec<R> = Vec::new();
        let mut i: usize = 0;
        while i < n
            invariant
                n == self.rows@.len(),
                i <= n,
                all@ == self.rows@.take(i as int),
            decreases n - i,
        {
            all.push(self.rows[i].duplicate());
            assert(self.rows@.take(i + 1) =~= self.rows@.take(i as int).push(self.rows@[i as int]));
            i += 1;
        }
        assert(self.rows@.take(n as int) =~= self.rows@);
        all
    }

    /// The rows changed at or after `timestamp`, deleted ones included, in
    /// the order of their last change, the earliest first.
    pub fn fetch_since(&self, timestamp: i64) -> (changed: Vec<R>)
        ensures
            is_changed_since(self@, timestamp as int, changed@),
    {
        let n = self.rows.len();
        let mut changed: Vec<R> = Vec::new();
        let mut i: usize = 0;
        assert(self.rows@.take(0) =~= Seq::<R>::empty());
        assert(changed@.to_multiset() =~= changed_since(self.rows@.take(0), timestamp as int).to_multiset())
            by {
            reveal(Seq::filter);
            assert(changed_since(self.rows@.take(0), timestamp as int) =~= Seq::<R>::empty());
        }
        while i < n
            invariant
                n == self.rows@.len(),
                i <= n,
                is_changed_since(self.rows@.take(i as int), timestamp as int, changed@),
            decreases n - i,
        {
            proof {
                let next = self.rows@.take(i + 1);
                assert(next.drop_last() =~= self.rows@.take(i as int));
                assert(next.last() == self.rows@[i as int]);
                reveal(Seq::filter);
                vstd::seq_lib::to_multiset_build(
                    changed_since(self.rows@.take(i as int), timestamp as int),
                    self.rows@[i as int],
                );
            }
            if self.rows[i].last_updated() >= timestamp {
                proof {
                    lemma_insert_at_rank(changed@, self.rows@[i as int]);
                }
                insert_by_stamp(&mut changed, self.rows[i].duplicate());
            }
            i += 1;
        }
        assert(self.rows@.take(n as int) =~= self.rows@);
        changed
    }

    /// For each identifier of `uids` in turn, the rows that carry it.
    pub fn fetch_by_ids(&self, uids: &Vec<String>) -> (found: Vec<R>)
        ensures
            found@ == rows_with_uids(self@, uids.deep_view()),
    {
        let n = self.rows.len();
        let mut found: Vec<R> = Vec::new();
        let mut k: usize = 0;
        while k < uids.len()
            invariant
                n == self.rows@.len(),
                k <= uids.len(),
                found@ == rows_with_uids(self@, uids.deep_view().take(k as int)),
            decreases uids.len() - k,
        {
            let ghost before = found@;
            let ghost wanted = uids@[k as int]@;
            let mut i: usize = 0;
            while i < n
                invariant
                    n == self.rows@.len(),
                    i <= n,
                    k < uids.len(),
                    wanted == uids@[k as int]@,
                    found@ == before + rows_with_uid(self.rows@.take(i as int), wanted),
                decreases n - i,
            {
                proof {
                    let next = self.rows@.take(i + 1);
                    assert(next.drop_last() =~= self.rows@.take(i as int));
                    assert(next.last() == self.rows@[i as int]);
                    reveal(Seq::filter);
                }
                if *self.rows[i].uid() == uids[k] {
                    found.push(self.rows[i].duplicate());
                }
                i += 1;
            }
            proof {
                assert(self.rows@.take(n as int) =~= self.rows@);
                let upto = uids.deep_view().take(k + 1);
                assert(upto.drop_last() =~= uids.deep_view().take(k as int));
                assert(upto.last() == wanted);
            }
            k += 1;
        }
        assert(uids.deep_view().take(uids.len() as int) =~= uids.deep_view());
        found
    }
}

/// Where a present identifier is found first: the index of the first row
/// that carries `uid`.
pub proof fn lemma_first_index<R: SyncedRecord>(rows: Seq<R>, uid: Seq<char>) -> (i: int)
    requires
        has_uid(rows, uid),
    ensures
        0 <= i < rows.len(),
        rows[i].spec_uid() == uid,
        forall|j: int| 0 <= j < i ==> (#[trigger] rows[j]).spec_uid() != uid,
        first_with_uid(rows, uid) == Some(rows[i]),
    decreases rows.len(),
{
    let w = choose|w: int| 0 <= w < rows.len() && (#[trigger] rows[w]).spec_uid() == uid;
    if rows[0].spec_uid() == uid {
        0
    } else {
        let rest = rows.subrange(1, rows.len() as int);
        assert(rest[w - 1] == rows[w]);
        let k = lemma_first_index(rest, uid);
        assert(rest[k] == rows[k + 1]);
        assert forall|j: int| 0 <= j < k + 1 implies (#[trigger] rows[j]).spec_uid() != uid by {
            if j > 0 {
                assert(rest[j - 1] == rows[j]);
            }
        }
        k + 1
    }
}

/// A lookup finds a row exactly when the identifier is present, and the row
/// it finds carries that identifier.
pub proof fn lemma_first_with_uid_present<R: SyncedRecord>(rows: Seq<R>, uid: Seq<char>)
    ensures
        first_with_uid(rows, uid) is Some <==> has_uid(rows, uid),
        first_with_uid(rows, uid) matches Some(row) ==> row.spec_uid() == uid && rows.contains(row),
{
    if has_uid(rows, uid) {
        let i = lemma_first_index(rows, uid);
    } else {
        lemma_first_with_uid_none(rows, uid);
    }
}

/// Appending a row leaves every earlier lookup as it was; an identifier that
/// was absent is found in the new row if the new row carries it.
pub proof fn lemma_first_with_uid_push<R: SyncedRecord>(rows: Seq<R>, record: R, uid: Seq<char>)
    ensures
        first_with_uid(rows.push(record), uid) == if has_uid(rows, uid) {
            first_with_uid(rows, uid)
        } else if record.spec_uid() == uid {
            Some(record)
        } else {
            None
        },
{
    let grown = rows.push(record);
    if has_uid(rows, uid) {
        let i = lemma_first_index(rows, uid);
        assert(grown[i] == rows[i]);
        assert forall|j: int| 0 <= j < i implies (#[trigger] grown[j]).spec_uid() != uid by {
            assert(grown[j] == rows[j]);
        }
        lemma_first_with_uid_at(grown, uid, i);
    } else if record.spec_uid() == uid {
        let n = rows.len() as int;
        assert(grown[n] == record);
        assert forall|j: int| 0 <= j < n implies (#[trigger] grown[j]).spec_uid() != uid by {
            assert(grown[j] == rows[j]);
        }
        lemma_first_with_uid_at(grown, uid, n);
    } else {
        assert(!has_uid(grown, uid)) by {
            if has_uid(grown, uid) {
                let j = choose|j: int| 0 <= j < grown.len() && (#[trigger] grown[j]).spec_uid() == uid;
                if j < rows.len() {
                    assert(rows[j].spec_uid() == uid);
                }
            }
        }
        lemma_first_with_uid_none(grown, uid);
    }
}

/// After an update, a lookup of the updated identifier finds the new record
/// (if the identifier was present at all); every other lookup is unchanged.
pub proof fn lemma_first_with_uid_replaced<R: SyncedRecord>(rows: Seq<R>, record: R, uid: Seq<char>)
    ensures
        first_with_uid(replaced(rows, record), uid) == if uid == record.spec_uid() {
            if has_uid(rows, uid) {
                Some(record)
            } else {
                None
            }
        } else {
            first_with_uid(rows, uid)
        },
{
    let after = replaced(rows, record);
    if has_uid(rows, uid) {
        let i = lemma_first_index(rows, uid);
        lemma_first_with_uid_at(after, uid, i);
    } else {
        assert(!has_uid(after, uid)) by {
            if has_uid(after, uid) {
                let j = choose|j: int| 0 <= j < after.len() && (#[trigger] after[j]).spec_uid() == uid;
                assert(rows[j].spec_uid() == uid);
            }
        }
        lemma_first_with_uid_none(after, uid);
        lemma_first_with_uid_none(rows, uid);
    }
}

/// `rows` with every row that carries `uid` soft-deleted at `now`.
pub open spec fn deleted<R: SyncedRecord>(rows: Seq<R>, uid: Seq<char>, now: i64) -> Seq<R> {
    Seq::new(
        rows.len(),
        |i: int| if rows[i].spec_uid() == uid { rows[i].spec_deleted_at(now) } else { rows[i] },
    )
}

/// `rows` after the identifiers of `uids` have been soft-deleted at `now`,
/// one after the other.
pub open spec fn deleted_all<R: SyncedRecord>(rows: Seq<R>, uids: Seq<Seq<char>>, now: i64) -> Seq<R>
    decreases uids.len(),
{
    if uids.len() == 0 {
        rows
    } else {
        deleted(deleted_all(rows, uids.drop_last(), now), uids.last(), now)
    }
}

/// The rows that are not soft-deleted, in store order.
pub open spec fn existing<R: SyncedRecord>(rows: Seq<R>) -> Seq<R> {
    rows.filter(|r: R| !r.spec_is_deleted())
}

impl<R: SyncedRecord> RecordStore<R> {
    /// Soft-deletes every row that carries `uid`: the row stays, flagged as
    /// deleted and with `now` as the time of its last change, so that the
    /// deletion travels with the next delta like any other change.
    pub fn soft_delete(&mut self, uid: &String, now: i64)
        ensures
            final(self)@ == deleted(old(self)@, uid@, now),
    {
        let n = self.rows.len();
        let mut i: usize = 0;
        while i < n
            invariant
                n == self.rows@.len(),
                n == old(self)@.len(),
                i <= n,
                forall|j: int| 0 <= j < i ==> self.rows@[j] == deleted(old(self)@, uid@, now)[j],
                forall|j: int| i <= j < n ==> self.rows@[j] == old(self)@[j],
            decreases n - i,
        {
            if *self.rows[i].uid() == *uid {
                let gone = self.rows[i].mark_deleted(now);
                self.rows.set(i, gone);
            }
            i += 1;
        }
        assert(self.rows@ =~= deleted(old(self)@, uid@, now));
    }

    /// Soft-deletes the rows of every identifier in `uids`.
    pub fn soft_delete_all(&mut self, uids: &Vec<String>, now: i64)
        ensures
            final(self)@ == deleted_all(old(self)@, uids.deep_view(), now),
    {
        let mut k: usize = 0;
        while k < uids.len()
            invariant
                k <= uids.len(),
                self@ == deleted_all(old(self)@, uids.deep_view().take(k as int), now),
            decreases uids.len() - k,
        {
            proof {
                let upto = uids.deep_view().take(k + 1);
                assert(upto.drop_last() =~= uids.deep_view().take(k as int));
                assert(upto.last() == uids@[k as int]@);
            }
            self.soft_delete(&uids[k], now);
            k += 1;
        }
        assert(uids.deep_view().take(uids.len() as int) =~= uids.deep_view());
    }

    /// The rows that are not soft-deleted.
    pub fn fetch_existing(&self) -> (present: Vec<R>)
        ensures
            present@ == existing(self@),
    {
        let n = self.rows.len();
        let mut present: Vec<R> = Vec::new();
        let mut i: usize = 0;
        while i < n
            invariant
                n == self.rows@.len(),
                i <= n,
                present@ == existing(self.rows@.take(i as int)),
            decreases n - i,
        {
            proof {
                let next = self.rows@.take(i + 1);
                assert(next.drop_last() =~= self.rows@.take(i as int));
                assert(next.last() == self.rows@[i as int]);
                reveal(Seq::filter);
            }
            if !self.rows[i].is_deleted() {
                present.push(self.rows[i].duplicate());
            }
            i += 1;
        }
        assert(self.rows@.take(n as int) =~= self.rows@);
        present
    }
}

/// Soft-deletion removes no row: a row that carried the identifier is still
/// there, still carries it, and is flagged; every other row is untouched.
pub proof fn lemma_deleted_rows_stay<R: SyncedRecord>(rows: Seq<R>, uid: Seq<char>, now: i64)
    ensures
        deleted(rows, uid, now).len() == rows.len(),
        forall|i: int|
            0 <= i < rows.len() && rows[i].spec_uid() == uid ==> {
                let row = #[trigger] deleted(rows, uid, now)[i];
                row.spec_uid() == uid && row.spec_is_deleted() && row.spec_last_updated() == now
            },
        forall|i: int|
            0 <= i < rows.len() && rows[i].spec_uid() != uid ==> (#[trigger] deleted(
                rows,
                uid,
                now,
            )[i]) == rows[i],
{
    assert forall|i: int| 0 <= i < rows.len() && rows[i].spec_uid() == uid implies {
        let row = #[trigger] deleted(rows, uid, now)[i];
        row.spec_uid() == uid && row.spec_is_deleted() && row.spec_last_updated() == now
    } by {
        rows[i].lemma_deleted_at(now);
    }
}

/// A deletion travels like any other change: the soft-deleted row is among
/// the rows fetched as changed since every watermark at or before the
/// deletion.
pub proof fn lemma_deletion_is_gathered<R: SyncedRecord>(
    rows: Seq<R>,
    uid: Seq<char>,
    now: i64,
    i: int,
    last_sync: int,
    found: Seq<R>,
)
    requires
        0 <= i < rows.len(),
        rows[i].spec_uid() == uid,
        last_sync <= now,
        is_changed_since(deleted(rows, uid, now), last_sync, found),
    ensures
        found.contains(rows[i].spec_deleted_at(now)),
{
    rows[i].lemma_deleted_at(now);
    let after = deleted(rows, uid, now);
    assert(after[i] == rows[i].spec_deleted_at(now));
    after.lemma_filter_contains(|r: R| r.spec_last_updated() >= last_sync, i);
    let gone = rows[i].spec_deleted_at(now);
    let changed = changed_since(after, last_sync);
    assert(changed.contains(gone));
    changed.to_multiset_ensures();
    assert(changed.to_multiset().count(gone) > 0);
    found.to_multiset_ensures();
    assert(found.to_multiset().count(gone) > 0);
}

} // verus!
