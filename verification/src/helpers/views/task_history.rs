use vstd::prelude::*;
use crate::models::fur_task::FurTask;
use crate::models::fur_task_group::{belongs, clamped_sum, duration, FurTaskGroup};
use crate::models::fur_todo::FurTodo;

verus! {

/// Whether a task goes with the tasks of a group, which is decided by the
/// group's first task: same name and tags, same project without regard to
/// case, same rate.
pub open spec fn goes_with(group: Seq<FurTask>, task: FurTask) -> bool {
    group.len() > 0 && belongs(group[0].name@, group[0].tags@, group[0].project@, group[0].rate, task)
}

/// The first group that a task goes with; the number of groups where it
/// goes with none.
pub open spec fn group_index(groups: Seq<Seq<FurTask>>, task: FurTask) -> int
    decreases groups.len(),
{
    if groups.len() == 0 {
        0
    } else if goes_with(groups[0], task) {
        0
    } else {
        1 + group_index(groups.subrange(1, groups.len() as int), task)
    }
}

/// The tasks arranged in groups: each task joins the first group that it
/// goes with, and begins a new group at the end where there is none.
pub open spec fn grouped(tasks: Seq<FurTask>) -> Seq<Seq<FurTask>>
    decreases tasks.len(),
{
    if tasks.len() == 0 {
        Seq::empty()
    } else {
        let earlier = grouped(tasks.drop_last());
        let at = group_index(earlier, tasks.last());
        if 0 <= at < earlier.len() {
            earlier.update(at, earlier[at].push(tasks.last()))
        } else {
            earlier.push(seq![tasks.last()])
        }
    }
}

/// The time of a group: the durations of its tasks added up, one after the
/// other, within the range of an `i64`.
pub open spec fn total_time(group: Seq<FurTask>) -> int
    decreases group.len(),
{
    if group.len() == 0 {
        0
    } else if group.len() == 1 {
        duration(group[0])
    } else {
        clamped_sum(total_time(group.drop_last()), duration(group.last()))
    }
}

/// Whether a group holds exactly these tasks, carries the first one's
/// identifier, name, tags, project and rate, and the time of all.
pub open spec fn group_of(group: FurTaskGroup, tasks: Seq<FurTask>) -> bool {
    &&& tasks.len() > 0
    &&& group.tasks@ == tasks
    &&& group.uid == tasks[0].uid
    &&& group.name == tasks[0].name
    &&& group.tags == tasks[0].tags
    &&& group.project == tasks[0].project
    &&& group.rate == tasks[0].rate
    &&& group.total_time == total_time(tasks)
}

/// Whether the groups are these groups of tasks, one for one.
pub open spec fn groups_of(groups: Seq<FurTaskGroup>, tasks: Seq<Seq<FurTask>>) -> bool {
    &&& groups.len() == tasks.len()
    &&& forall|i: int| 0 <= i < groups.len() ==> group_of(#[trigger] groups[i], tasks[i])
}

/// The index of a group lies among the groups or just behind them.
pub proof fn lemma_group_index_bound(groups: Seq<Seq<FurTask>>, task: FurTask)
    ensures
        0 <= group_index(groups, task) <= groups.len(),
        group_index(groups, task) < groups.len() ==> goes_with(
            groups[group_index(groups, task)],
            task,
        ),
        forall|i: int| 0 <= i < group_index(groups, task) ==> !goes_with(#[trigger] groups[i], task),
    decreases groups.len(),
{
    if groups.len() > 0 && !goes_with(groups[0], task) {
        let rest = groups.subrange(1, groups.len() as int);
        lemma_group_index_bound(rest, task);
        if group_index(rest, task) < rest.len() {
            assert(rest[group_index(rest, task)] == groups[group_index(groups, task)]);
        }
        assert forall|i: int| 0 <= i < group_index(groups, task) implies !goes_with(
            #[trigger] groups[i],
            task,
        ) by {
            if i > 0 {
                assert(rest[i - 1] == groups[i]);
            }
        }
    }
}

/// Finds the first group that a task goes with.
fn find_group(groups: &Vec<FurTaskGroup>, task: &FurTask, Ghost(shape): Ghost<Seq<Seq<FurTask>>>) -> (at:
    usize)
    requires
        groups_of(groups@, shape),
    ensures
        at == group_index(shape, *task),
        at <= groups@.len(),
{
    let n = groups.len();
    let mut at: usize = 0;
    assert(shape.subrange(0, n as int) =~= shape);
    while at < n
        invariant
            n == groups@.len(),
            groups_of(groups@, shape),
            at <= n,
            group_index(shape, *task) == at + group_index(shape.subrange(at as int, n as int), *task),
        decreases n - at,
    {
        proof {
            let rest = shape.subrange(at as int, n as int);
            assert(rest[0] == shape[at as int]);
            assert(group_of(groups@[at as int], shape[at as int]));
            assert(rest.subrange(1, rest.len() as int) =~= shape.subrange(at + 1, n as int));
        }
        if groups[at].is_equal_to(task) {
            return at;
        }
        at += 1;
    }
    at
}

/// Arranges the tasks of a day in groups, in the order in which the tasks
/// come: a task joins the first group of tasks with its name, tags, project
/// and rate, or begins a new one.
pub fn group_tasks(tasks: Vec<FurTask>) -> (groups: Vec<FurTaskGroup>)
    ensures
        groups_of(groups@, grouped(tasks@)),
{
    let mut groups: Vec<FurTaskGroup> = Vec::new();
    let ghost whole = tasks@;
    let mut rest = tasks;
    let mut pending: Vec<FurTask> = Vec::new();
    // Turn the tasks round, so that they can be taken one by one from the end.
    while rest.len() > 0
        invariant
            rest@ + pending@.reverse() == whole,
        decreases rest.len(),
    {
        let ghost r0 = rest@;
        let ghost p0 = pending@;
        let task = rest.pop().unwrap();
        pending.push(task);
        assert(rest@ + pending@.reverse() =~= r0 + p0.reverse()) by {
            assert(pending@.reverse() =~= seq![task] + p0.reverse());
            assert(r0 =~= rest@ + seq![task]);
        }
    }
    assert(pending@.reverse() =~= whole);
    let ghost mut done: Seq<FurTask> = Seq::empty();
    while pending.len() > 0
        invariant
            done + pending@.reverse() == whole,
            groups_of(groups@, grouped(done)),
        decreases pending.len(),
    {
        let ghost p0 = pending@;
        let ghost before = grouped(done);
        let task = pending.pop().unwrap();
        proof {
            let next = done.push(task);
            assert(next.drop_last() =~= done);
            assert(next.last() == task);
            assert(next + pending@.reverse() =~= done + p0.reverse()) by {
                assert(p0 =~= pending@.push(task));
                assert(p0.reverse() =~= seq![task] + pending@.reverse());
            }
            lemma_group_index_bound(before, task);
            done = next;
        }
        let at = find_group(&groups, &task, Ghost(before));
        if at < groups.len() {
            let mut group = groups.remove(at);
            assert(group_of(group, before[at as int]));
            group.add(task);
            proof {
                let tasks_after = before[at as int].push(task);
                assert(tasks_after.drop_last() =~= before[at as int]);
                assert(tasks_after[0] == before[at as int][0]);
                assert(group_of(group, tasks_after));
            }
            groups.insert(at, group);
            assert(groups_of(groups@, grouped(done)));
        } else {
            let group = FurTaskGroup::new_from(task);
            groups.push(group);
            assert(groups_of(groups@, grouped(done)));
        }
    }
    assert(done =~= whole);
    groups
}

/// The items of one day.
pub struct Day<T> {
    /// The day, as a number that grows with the calendar.
    pub day: i64,
    pub items: Vec<T>,
}

/// How many leading days of `days` come before `day`.
pub open spec fn day_rank<T>(days: Seq<(i64, Seq<T>)>, day: i64) -> nat
    decreases days.len(),
{
    if days.len() > 0 && days[0].0 < day {
        1 + day_rank(days.subrange(1, days.len() as int), day)
    } else {
        0
    }
}

/// The days with one more item: it joins its day at the end, or begins its
/// day in the day's place among the days.
pub open spec fn placed<T>(days: Seq<(i64, Seq<T>)>, day: i64, item: T) -> Seq<(i64, Seq<T>)> {
    let place = day_rank(days, day) as int;
    if place < days.len() && days[place].0 == day {
        days.update(place, (day, days[place].1.push(item)))
    } else {
        days.insert(place, (day, seq![item]))
    }
}

/// The items arranged by day: the days in the calendar's order, each once,
/// and within a day the items in the order in which they came.
pub open spec fn by_day<T>(items: Seq<(i64, T)>) -> Seq<(i64, Seq<T>)>
    decreases items.len(),
{
    if items.len() == 0 {
        Seq::empty()
    } else {
        placed(by_day(items.drop_last()), items.last().0, items.last().1)
    }
}

/// Each day comes before the next.
pub open spec fn days_ascend<T>(days: Seq<(i64, Seq<T>)>) -> bool {
    forall|i: int| 0 <= i < days.len() - 1 ==> (#[trigger] days[i]).0 < days[i + 1].0
}

/// Whether the days hold these items, day for day.
pub open spec fn days_of<T>(days: Seq<Day<T>>, shape: Seq<(i64, Seq<T>)>) -> bool {
    &&& days.len() == shape.len()
    &&& forall|i: int|
        0 <= i < days.len() ==> (#[trigger] days[i]).day == shape[i].0 && days[i].items@
            == shape[i].1
}

/// The rank is a place among the days; every day before it comes before
/// `day`, and the day at it does not.
pub proof fn lemma_day_rank<T>(days: Seq<(i64, Seq<T>)>, day: i64)
    ensures
        day_rank(days, day) <= days.len(),
        forall|i: int| 0 <= i < day_rank(days, day) ==> (#[trigger] days[i]).0 < day,
        day_rank(days, day) < days.len() ==> days[day_rank(days, day) as int].0 >= day,
    decreases days.len(),
{
    if days.len() > 0 && days[0].0 < day {
        let rest = days.subrange(1, days.len() as int);
        lemma_day_rank(rest, day);
        assert forall|i: int| 0 <= i < day_rank(days, day) implies (#[trigger] days[i]).0 < day by {
            if i > 0 {
                assert(rest[i - 1] == days[i]);
            }
        }
        if day_rank(days, day) < days.len() {
            assert(rest[day_rank(rest, day) as int] == days[day_rank(days, day) as int]);
        }
    }
}

/// Placing an item keeps the days in order and each day once.
pub proof fn lemma_placed_ascends<T>(days: Seq<(i64, Seq<T>)>, day: i64, item: T)
    requires
        days_ascend(days),
    ensures
        days_ascend(placed(days, day, item)),
{
    lemma_day_rank(days, day);
    let place = day_rank(days, day) as int;
    let after = placed(days, day, item);
    assert forall|i: int| 0 <= i < after.len() - 1 implies (#[trigger] after[i]).0 < after[i + 1].0 by {
        if place < days.len() && days[place].0 == day {
            assert(after[i].0 == days[i].0 && after[i + 1].0 == days[i + 1].0);
        } else if i + 1 < place {
            assert(after[i] == days[i] && after[i + 1] == days[i + 1]);
        } else if i + 1 == place {
            assert(after[i] == days[i]);
        } else if i == place {
            assert(after[i + 1] == days[place]);
        } else {
            assert(after[i] == days[i - 1] && after[i + 1] == days[i]);
        }
    }
}

/// Arranged by day, the days are in the calendar's order and each day
/// occurs once.
pub proof fn lemma_by_day_ascends<T>(items: Seq<(i64, T)>)
    ensures
        days_ascend(by_day(items)),
    decreases items.len(),
{
    if items.len() > 0 {
        lemma_by_day_ascends(items.drop_last());
        lemma_placed_ascends(by_day(items.drop_last()), items.last().0, items.last().1);
    }
}

/// Puts an item into its day.
fn place_item<T>(days: &mut Vec<Day<T>>, day: i64, item: T, Ghost(shape): Ghost<Seq<(i64, Seq<T>)>>)
    requires
        days_of(old(days)@, shape),
    ensures
        days_of(final(days)@, placed(shape, day, item)),
{
    let n = days.len();
    let mut place: usize = 0;
    assert(shape.subrange(0, n as int) =~= shape);
    while place < n && days[place].day < day
        invariant
            n == days@.len(),
            days_of(days@, shape),
            place <= n,
            day_rank(shape, day) == place + day_rank(shape.subrange(place as int, n as int), day),
        decreases n - place,
    {
        proof {
            let rest = shape.subrange(place as int, n as int);
            assert(rest[0] == shape[place as int]);
            assert(days@[place as int].day == shape[place as int].0);
            assert(rest.subrange(1, rest.len() as int) =~= shape.subrange(place + 1, n as int));
        }
        place += 1;
    }
    proof {
        let rest = shape.subrange(place as int, n as int);
        if place < n {
            assert(rest[0] == shape[place as int]);
            assert(days@[place as int].day == shape[place as int].0);
        }
        assert(day_rank(shape, day) == place);
    }
    if place < n && days[place].day == day {
        let mut found = days.remove(place);
        assert(found.day == shape[place as int].0 && found.items@ == shape[place as int].1);
        found.items.push(item);
        days.insert(place, found);
        assert(days_of(days@, placed(shape, day, item)));
    } else {
        let mut items: Vec<T> = Vec::new();
        items.push(item);
        days.insert(place, Day { day, items });
        assert(days_of(days@, placed(shape, day, item)));
    }
}

/// Arranges items by day. Each item comes with its day; the result holds
/// the days in the calendar's order, each once, and within a day the items
/// in the order in which they came.
pub fn group_by_day<T>(items: Vec<(i64, T)>) -> (days: Vec<Day<T>>)
    ensures
        days_of(days@, by_day(items@)),
{
    let mut days: Vec<Day<T>> = Vec::new();
    let ghost whole = items@;
    let mut rest = items;
    let mut pending: Vec<(i64, T)> = Vec::new();
    // Turn the items round, so that they can be taken one by one from the end.
    while rest.len() > 0
        invariant
            rest@ + pending@.reverse() == whole,
        decreases rest.len(),
    {
        let ghost r0 = rest@;
        let ghost p0 = pending@;
        let entry = rest.pop().unwrap();
        pending.push(entry);
        assert(rest@ + pending@.reverse() =~= r0 + p0.reverse()) by {
            assert(pending@.reverse() =~= seq![entry] + p0.reverse());
            assert(r0 =~= rest@ + seq![entry]);
        }
    }
    assert(pending@.reverse() =~= whole);
    let ghost mut done: Seq<(i64, T)> = Seq::empty();
    while pending.len() > 0
        invariant
            done + pending@.reverse() == whole,
            days_of(days@, by_day(done)),
        decreases pending.len(),
    {
        let ghost p0 = pending@;
        let ghost before = by_day(done);
        let entry = pending.pop().unwrap();
        proof {
            let next = done.push(entry);
            assert(next.drop_last() =~= done);
            assert(next.last() == entry);
            assert(next + pending@.reverse() =~= done + p0.reverse()) by {
                assert(p0 =~= pending@.push(entry));
                assert(p0.reverse() =~= seq![entry] + pending@.reverse());
            }
            done = next;
        }
        place_item(&mut days, entry.0, entry.1, Ghost(before));
    }
    assert(done =~= whole);
    days
}

/// The history of tasks: the tasks arranged by day, and the tasks of each
/// day arranged in groups.
pub fn get_task_history(tasks: Vec<(i64, FurTask)>) -> (history: Vec<Day<FurTaskGroup>>)
    ensures
        history@.len() == by_day(tasks@).len(),
        forall|i: int|
            0 <= i < history@.len() ==> (#[trigger] history@[i]).day == by_day(tasks@)[i].0
                && groups_of(history@[i].items@, grouped(by_day(tasks@)[i].1)),
{
    let mut days = group_by_day(tasks);
    let ghost shape = by_day(tasks@);
    let mut history: Vec<Day<FurTaskGroup>> = Vec::new();
    // The days are taken from the end and put in front, which keeps their order.
    while days.len() > 0
        invariant
            days@.len() + history@.len() == shape.len(),
            forall|i: int|
                0 <= i < days@.len() ==> (#[trigger] days@[i]).day == shape[i].0 && days@[i].items@
                    == shape[i].1,
            forall|i: int|
                0 <= i < history@.len() ==> (#[trigger] history@[i]).day == shape[days@.len() + i].0
                    && groups_of(history@[i].items@, grouped(shape[days@.len() + i].1)),
        decreases days.len(),
    {
        let ghost h0 = history@;
        let ghost k = days@.len() - 1;
        let last = days.pop().unwrap();
        let groups = group_tasks(last.items);
        history.insert(0, Day { day: last.day, items: groups });
        assert forall|i: int| 0 <= i < history@.len() implies (#[trigger] history@[i]).day
            == shape[days@.len() + i].0 && groups_of(
            history@[i].items@,
            grouped(shape[days@.len() + i].1),
        ) by {
            if i > 0 {
                assert(history@[i] == h0[i - 1]);
            }
        }
    }
    history
}

/// Whether one of the lines is `line`.
pub open spec fn lists_line(lines: Seq<Seq<char>>, line: Seq<char>) -> bool {
    exists|k: int| 0 <= k < lines.len() && #[trigger] lines[k] == line
}

/// Whether the todo at position `i` is done by the work of the day: its
/// line of text is the line of one of the day's task groups.
pub open spec fn done_by_work(
    todo_lines: Seq<Seq<char>>,
    group_lines: Seq<Seq<char>>,
    i: int,
) -> bool {
    0 <= i < todo_lines.len() && lists_line(group_lines, todo_lines[i])
}

/// The identifiers of the first `upto` todos that the work of the day has
/// done, in the todos' order.
pub open spec fn done_uids(
    todos: Seq<FurTodo>,
    todo_lines: Seq<Seq<char>>,
    group_lines: Seq<Seq<char>>,
    upto: int,
) -> Seq<Seq<char>>
    decreases upto,
{
    if upto <= 0 {
        Seq::empty()
    } else {
        let earlier = done_uids(todos, todo_lines, group_lines, upto - 1);
        if upto <= todos.len() && done_by_work(todo_lines, group_lines, upto - 1) {
            earlier.push(todos[upto - 1].uid@)
        } else {
            earlier
        }
    }
}

/// Whether one of the lines is `line`.
fn line_listed(lines: &Vec<String>, line: &String) -> (listed: bool)
    ensures
        listed == lists_line(lines.deep_view(), line@),
{
    let n = lines.len();
    let mut k: usize = 0;
    while k < n
        invariant
            n == lines@.len(),
            k <= n,
            forall|j: int| 0 <= j < k ==> (#[trigger] lines.deep_view()[j]) != line@,
        decreases n - k,
    {
        if lines[k] == *line {
            assert(lines.deep_view()[k as int] == line@);
            return true;
        }
        k += 1;
    }
    false
}

/// Marks the todos of today that the work of today has done: a todo whose
/// line of text is the line of one of today's task groups is completed.
/// `todo_lines` holds the todos' lines, position by position, and
/// `group_lines` the groups'. The result names the todos that were marked,
/// for their completion to be stored.
pub fn update_todos_after_refresh(
    todos: &mut Vec<FurTodo>,
    todo_lines: &Vec<String>,
    group_lines: &Vec<String>,
) -> (done: Vec<String>)
    ensures
        final(todos)@.len() == old(todos)@.len(),
        forall|i: int|
            0 <= i < old(todos)@.len() ==> (#[trigger] final(todos)@[i]) == if done_by_work(
                todo_lines.deep_view(),
                group_lines.deep_view(),
                i,
            ) {
                FurTodo { is_completed: true, ..old(todos)@[i] }
            } else {
                old(todos)@[i]
            },
        done.deep_view() == done_uids(
            old(todos)@,
            todo_lines.deep_view(),
            group_lines.deep_view(),
            old(todos)@.len() as int,
        ),
{
    let mut done: Vec<String> = Vec::new();
    let n = todos.len();
    let mut i: usize = 0;
    assert(done.deep_view() =~= Seq::<Seq<char>>::empty());
    while i < n
        invariant
            n == todos@.len(),
            n == old(todos)@.len(),
            i <= n,
            forall|j: int|
                0 <= j < i ==> (#[trigger] todos@[j]) == if done_by_work(
                    todo_lines.deep_view(),
                    group_lines.deep_view(),
                    j,
                ) {
                    FurTodo { is_completed: true, ..old(todos)@[j] }
                } else {
                    old(todos)@[j]
                },
            forall|j: int| i <= j < n ==> todos@[j] == old(todos)@[j],
            done.deep_view() == done_uids(
                old(todos)@,
                todo_lines.deep_view(),
                group_lines.deep_view(),
                i as int,
            ),
        decreases n - i,
    {
        let matched = i < todo_lines.len() && line_listed(group_lines, &todo_lines[i]);
        proof {
            if i < todo_lines.len() {
                assert(todo_lines.deep_view()[i as int] == todo_lines@[i as int]@);
            }
        }
        if matched {
            let todo = &todos[i];
            let ghost before = done.deep_view();
            done.push(todo.uid.clone());
            assert(done.deep_view() =~= before.push(todo.uid@));
            let marked = FurTodo {
                name: todo.name.clone(),
                project: todo.project.clone(),
                tags: todo.tags.clone(),
                rate: todo.rate,
                currency: todo.currency.clone(),
                date: todo.date,
                uid: todo.uid.clone(),
                is_completed: true,
                is_deleted: todo.is_deleted,
                last_updated: todo.last_updated,
            };
            todos.set(i, marked);
        }
        i += 1;
    }
    done
}

} // verus!
