use vstd::prelude::*;
use crate::models::moment::Moment;

verus! {

/// The timer as it is kept across restarts.
#[derive(Debug)]
pub struct FurPersist {
    pub is_running: bool,
    pub task_input: String,
    pub start_time: Moment,
}

/// The kept timer of a timer that is not running: stopped, without input,
/// stamped with the present moment.
pub fn reset_persisting_timer(now: Moment) -> (kept: FurPersist)
    ensures
        !kept.is_running,
        kept.task_input@ == Seq::<char>::empty(),
        kept.start_time == now,
{
    FurPersist { is_running: false, task_input: String::new(), start_time: now }
}

} // verus!
