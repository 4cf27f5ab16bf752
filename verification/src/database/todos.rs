use vstd::prelude::*;
use crate::database::store::RecordStore;
use crate::models::fur_todo::FurTodo;

verus! {

/// A todo with its completion set and `now` as the time of its last change.
pub open spec fn completed_as(todo: FurTodo, done: bool, now: i64) -> FurTodo {
    FurTodo { is_completed: done, last_updated: now, ..todo }
}

/// The todos with the completion of every todo that carries `uid` turned
/// round, stamped with `now`.
pub open spec fn toggled(rows: Seq<FurTodo>, uid: Seq<char>, now: i64) -> Seq<FurTodo> {
    Seq::new(
        rows.len(),
        |i: int|
            if rows[i].uid@ == uid {
                completed_as(rows[i], !rows[i].is_completed, now)
            } else {
                rows[i]
            },
    )
}

/// The todos with every todo that carries `uid` completed, stamped with
/// `now`.
pub open spec fn completed(rows: Seq<FurTodo>, uid: Seq<char>, now: i64) -> Seq<FurTodo> {
    Seq::new(
        rows.len(),
        |i: int| if rows[i].uid@ == uid { completed_as(rows[i], true, now) } else { rows[i] },
    )
}

/// A copy of the todo with its completion set, changed at `now`.
fn with_completion(todo: &FurTodo, done: bool, now: i64) -> (copy: FurTodo)
    ensures
        copy == completed_as(*todo, done, now),
{
    FurTodo {
        name: todo.name.clone(),
        project: todo.project.clone(),
        tags: todo.tags.clone(),
        rate: todo.rate,
        currency: todo.currency.clone(),
        date: todo.date,
        uid: todo.uid.clone(),
        is_completed: done,
        is_deleted: todo.is_deleted,
        last_updated: now,
    }
}

/// Turns the completion of a todo round. The change is stamped with `now`,
/// so that it travels with the next delta.
pub fn toggle_todo_completed(store: &mut RecordStore<FurTodo>, uid: &str, now: i64)
    ensures
        final(store)@ == toggled(old(store)@, uid@, now),
{
    let n = store.rows.len();
    let wanted = String::from_str(uid);
    let mut i: usize = 0;
    while i < n
        invariant
            n == store.rows@.len(),
            n == old(store)@.len(),
            wanted@ == uid@,
            i <= n,
            forall|j: int| 0 <= j < i ==> store.rows@[j] == toggled(old(store)@, uid@, now)[j],
            forall|j: int| i <= j < n ==> store.rows@[j] == old(store)@[j],
        decreases n - i,
    {
        if store.rows[i].uid == wanted {
            let turned = with_completion(&store.rows[i], !store.rows[i].is_completed, now);
            store.rows.set(i, turned);
        }
        i += 1;
    }
    assert(store.rows@ =~= toggled(old(store)@, uid@, now));
}

/// Completes a todo. The change is stamped with `now`.
pub fn set_todo_completed(store: &mut RecordStore<FurTodo>, uid: &str, now: i64)
    ensures
        final(store)@ == completed(old(store)@, uid@, now),
{
    let n = store.rows.len();
    let wanted = String::from_str(uid);
    let mut i: usize = 0;
    while i < n
        invariant
            n == store.rows@.len(),
            n == old(store)@.len(),
            wanted@ == uid@,
            i <= n,
            forall|j: int| 0 <= j < i ==> store.rows@[j] == completed(old(store)@, uid@, now)[j],
            forall|j: int| i <= j < n ==> store.rows@[j] == old(store)@[j],
        decreases n - i,
    {
        if store.rows[i].uid == wanted {
            let done = with_completion(&store.rows[i], true, now);
            store.rows.set(i, done);
        }
        i += 1;
    }
    assert(store.rows@ =~= completed(old(store)@, uid@, now));
}

/// The todos that are not deleted and whose date lies between two moments,
/// both included, counted in whole seconds.
pub open spec fn between_dates(rows: Seq<FurTodo>, from: int, to: int) -> Seq<FurTodo> {
    rows.filter(|todo: FurTodo| !todo.is_deleted && from <= todo.date.seconds <= to)
}

/// The todos of a span of time.
pub fn retrieve_todos_between_dates(store: &RecordStore<FurTodo>, from: i64, to: i64) -> (found: Vec<
    FurTodo,
>)
    ensures
        found@ == between_dates(store@, from as int, to as int),
{
    let n = store.rows.len();
    let mut found: Vec<FurTodo> = Vec::new();
    let mut i: usize = 0;
    while i < n
        invariant
            n == store.rows@.len(),
            i <= n,
            found@ == between_dates(store.rows@.take(i as int), from as int, to as int),
        decreases n - i,
    {
        proof {
            let next = store.rows@.take(i + 1);
            assert(next.drop_last() =~= store.rows@.take(i as int));
            assert(next.last() == store.rows@[i as int]);
            reveal(Seq::filter);
        }
        let todo = &store.rows[i];
        if !todo.is_deleted && from <= todo.date.seconds && todo.date.seconds <= to {
            found.push(with_completion(todo, todo.is_completed, todo.last_updated));
        }
        i += 1;
    }
    assert(store.rows@.take(n as int) =~= store.rows@);
    found
}

} // verus!
