use vstd::prelude::*;
use crate::models::moment::Moment;

verus! {

/// Where the pomodoro rhythm stands.
#[derive(Debug, Clone, Copy, PartialEq, Eq, Structural)]
pub struct FurPomodoro {
    pub on_break: bool,
    pub sessions: u16,
    pub snoozed: bool,
    pub snoozed_at: Moment,
}

impl FurPomodoro {
    /// The rhythm before the first session: at work, nothing counted,
    /// nothing snoozed.
    pub fn new(now: Moment) -> (pomodoro: FurPomodoro)
        ensures
            pomodoro == (FurPomodoro { on_break: false, sessions: 0, snoozed: false, snoozed_at: now }),
    {
        FurPomodoro { on_break: false, sessions: 0, snoozed: false, snoozed_at: now }
    }
}

} // verus!
