use vstd::prelude::*;
use crate::helpers::views::task_history::{by_day, days_of, group_by_day, Day};
use crate::models::fur_todo::FurTodo;
use crate::models::moment::Moment;

verus! {

/// The days that the list of todos looks back.
pub const TODO_DAYS_BACK: i64 = 60;

/// The days that the list of todos looks ahead.
pub const TODO_DAYS_AHEAD: i64 = 3;

/// The seconds of a day.
pub const SECONDS_PER_DAY: i64 = 86_400;

/// A moment moved by a number of seconds, held to the range of an `i64`.
pub open spec fn moved(moment: Moment, seconds: int) -> Moment {
    let to = moment.seconds + seconds;
    Moment {
        seconds: if to > i64::MAX {
            i64::MAX
        } else if to < i64::MIN {
            i64::MIN
        } else {
            to as i64
        },
        nanos: moment.nanos,
    }
}

/// The span of time from which todos are listed: from sixty days before
/// `now` to three days after it.
pub fn todo_window(now: Moment) -> (window: (Moment, Moment))
    ensures
        window.0 == moved(now, -(TODO_DAYS_BACK * SECONDS_PER_DAY)),
        window.1 == moved(now, TODO_DAYS_AHEAD * SECONDS_PER_DAY),
{
    let back: i128 = now.seconds as i128 - (TODO_DAYS_BACK * SECONDS_PER_DAY) as i128;
    let ahead: i128 = now.seconds as i128 + (TODO_DAYS_AHEAD * SECONDS_PER_DAY) as i128;
    let past = if back < i64::MIN as i128 {
        i64::MIN
    } else {
        back as i64
    };
    let future = if ahead > i64::MAX as i128 {
        i64::MAX
    } else {
        ahead as i64
    };
    (Moment { seconds: past, nanos: now.nanos }, Moment { seconds: future, nanos: now.nanos })
}

/// The list of todos: the todos arranged by day, the days in the
/// calendar's order, and within a day in the order in which they came.
pub fn get_all_todos(todos: Vec<(i64, FurTodo)>) -> (days: Vec<Day<FurTodo>>)
    ensures
        days_of(days@, by_day(todos@)),
{
    group_by_day(todos)
}

} // verus!
