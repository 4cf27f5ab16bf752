use vstd::prelude::*;
use crate::database::store::RecordStore;
use crate::models::fur_task::FurTask;
use crate::models::fur_task_group::FurTaskGroup;

verus! {

/// Direction in which stored tasks are listed.
#[derive(Debug, Clone, Copy, PartialEq, Eq, Structural)]
pub enum SortOrder {
    Ascending,
    Descending,
}

impl Default for SortOrder {
    fn default() -> (order: Self)
        ensures
            order == SortOrder::Ascending,
    {
        SortOrder::Ascending
    }
}

impl SortOrder {
    /// The keyword of the query language for this direction.
    pub open spec fn keyword(self) -> Seq<char> {
        match self {
            SortOrder::Ascending => "ASC"@,
            SortOrder::Descending => "DESC"@,
        }
    }

    /// The keyword of the query language for this direction.
    pub fn to_sqlite(&self) -> (keyword: &'static str)
        ensures
            keyword@ == self.keyword(),
    {
        match self {
            SortOrder::Ascending => "ASC",
            SortOrder::Descending => "DESC",
        }
    }
}

/// The column by which stored tasks are listed.
#[derive(Debug, Clone, Copy, PartialEq, Eq, Structural)]
pub enum SortBy {
    StartTime,
    StopTime,
    TaskName,
}

impl Default for SortBy {
    fn default() -> (column: Self)
        ensures
            column == SortBy::StartTime,
    {
        SortBy::StartTime
    }
}

impl SortBy {
    /// The name of the column in the task table.
    pub open spec fn column(self) -> Seq<char> {
        match self {
            SortBy::StartTime => "start_time"@,
            SortBy::StopTime => "stop_time"@,
            SortBy::TaskName => "task_name"@,
        }
    }

    /// The name of the column in the task table.
    pub fn to_sqlite(&self) -> (column: &'static str)
        ensures
            column@ == self.column(),
    {
        match self {
            SortBy::StartTime => "start_time",
            SortBy::StopTime => "stop_time",
            SortBy::TaskName => "task_name",
        }
    }
}

/// The query that lists all tasks, or only those not deleted, in the given
/// order.
pub fn select_tasks_query(existing_only: bool, sort: SortBy, order: SortOrder) -> (query: String)
    ensures
        query@ == (if existing_only {
            "SELECT * FROM tasks WHERE is_deleted = 0 ORDER BY "@
        } else {
            "SELECT * FROM tasks ORDER BY "@
        }) + sort.column() + " "@ + order.keyword(),
{
    let head = if existing_only {
        "SELECT * FROM tasks WHERE is_deleted = 0 ORDER BY "
    } else {
        "SELECT * FROM tasks ORDER BY "
    };
    String::from_str(head).concat(sort.to_sqlite()).concat(" ").concat(order.to_sqlite())
}

/// Whether a stored task has the content of `task`: name, times, tags,
/// project, currency and deletion agree exactly, and the rates as numbers.
pub open spec fn same_content(row: FurTask, task: FurTask) -> bool {
    &&& row.name@ == task.name@
    &&& row.start_time == task.start_time
    &&& row.stop_time == task.stop_time
    &&& row.tags@ == task.tags@
    &&& row.project@ == task.project@
    &&& row.rate.spec_same(task.rate)
    &&& row.currency@ == task.currency@
    &&& row.is_deleted == task.is_deleted
}

/// Whether a task with the content of `task` is stored, whatever its
/// identifier.
pub fn task_exists(store: &RecordStore<FurTask>, task: &FurTask) -> (exists: bool)
    ensures
        exists == exists|i: int| 0 <= i < store@.len() && same_content(#[trigger] store@[i], *task),
{
    let n = store.rows.len();
    let mut i: usize = 0;
    while i < n
        invariant
            n == store.rows@.len(),
            i <= n,
            forall|j: int| 0 <= j < i ==> !same_content(#[trigger] store.rows@[j], *task),
        decreases n - i,
    {
        let row = &store.rows[i];
        if row.name == task.name && row.start_time == task.start_time && row.stop_time
            == task.stop_time && row.tags == task.tags && row.project == task.project
            && row.rate.same(&task.rate) && row.currency == task.currency && row.is_deleted
            == task.is_deleted {
            assert(same_content(store@[i as int], *task));
            return true;
        }
        i += 1;
    }
    false
}

/// Whether `uid` is one of the identifiers.
pub open spec fn names_uid(uids: Seq<Seq<char>>, uid: Seq<char>) -> bool {
    exists|k: int| 0 <= k < uids.len() && #[trigger] uids[k] == uid
}

/// A task as it is once its group has been renamed: the group's name,
/// tags, project and rate, and `now` as the time of its last change.
pub open spec fn regrouped(task: FurTask, group: FurTaskGroup, now: i64) -> FurTask {
    FurTask {
        name: group.name,
        tags: group.tags,
        project: group.project,
        rate: group.rate,
        last_updated: now,
        ..task
    }
}

/// Whether `after` is `before` with the tasks of the group renamed: every
/// row whose identifier the group names takes the group's name, tags,
/// project and rate and is stamped with `now`; every other row stays.
pub open spec fn group_applied(
    before: Seq<FurTask>,
    after: Seq<FurTask>,
    group: FurTaskGroup,
    uids: Seq<Seq<char>>,
    now: i64,
) -> bool {
    &&& after.len() == before.len()
    &&& forall|i: int|
        0 <= i < before.len() ==> (#[trigger] after[i]) == if names_uid(uids, before[i].uid@) {
            regrouped(before[i], group, now)
        } else {
            before[i]
        }
}

/// Whether one of the identifiers is `uid`.
fn uid_listed(uids: &Vec<String>, uid: &String) -> (listed: bool)
    ensures
        listed == names_uid(uids.deep_view(), uid@),
{
    let n = uids.len();
    let mut k: usize = 0;
    while k < n
        invariant
            n == uids@.len(),
            k <= n,
            forall|j: int| 0 <= j < k ==> (#[trigger] uids.deep_view()[j]) != uid@,
        decreases n - k,
    {
        if uids[k] == *uid {
            assert(uids.deep_view()[k as int] == uid@);
            return true;
        }
        k += 1;
    }
    false
}

/// Renames the tasks of a group in the store: each takes the group's name,
/// tags, project and rate. The change is stamped with `now`, so that it
/// travels with the next delta.
pub fn update_group_of_tasks(store: &mut RecordStore<FurTask>, group: &FurTaskGroup, now: i64)
    ensures
        group_applied(
            old(store)@,
            final(store)@,
            *group,
            Seq::new(group.tasks@.len(), |k: int| group.tasks@[k].uid@),
            now,
        ),
{
    let uids = group.all_task_ids();
    let ghost listed = Seq::new(group.tasks@.len(), |k: int| group.tasks@[k].uid@);
    assert(uids.deep_view() =~= listed);
    let n = store.rows.len();
    let mut i: usize = 0;
    while i < n
        invariant
            n == store.rows@.len(),
            n == old(store)@.len(),
            uids.deep_view() == listed,
            i <= n,
            forall|j: int|
                0 <= j < i ==> (#[trigger] store.rows@[j]) == if names_uid(
                    listed,
                    old(store)@[j].uid@,
                ) {
                    regrouped(old(store)@[j], *group, now)
                } else {
                    old(store)@[j]
                },
            forall|j: int| i <= j < n ==> store.rows@[j] == old(store)@[j],
        decreases n - i,
    {
        if uid_listed(&uids, &store.rows[i].uid) {
            let row = &store.rows[i];
            let renamed = FurTask {
                name: group.name.clone(),
                start_time: row.start_time,
                stop_time: row.stop_time,
                tags: group.tags.clone(),
                project: group.project.clone(),
                rate: group.rate,
                currency: row.currency.clone(),
                uid: row.uid.clone(),
                is_deleted: row.is_deleted,
                last_updated: now,
            };
            store.rows.set(i, renamed);
        }
        i += 1;
    }
}

} // verus!
