use vstd::prelude::*;
use crate::helpers::views::timer::{
    one_more, reset_timer, start_timer, stop_timer, stopped_text, TaskParts, TimerState,
};
use crate::models::fur_persist::FurPersist;
use crate::models::fur_pomodoro::FurPomodoro;
use crate::models::fur_settings::FurSettings;
use crate::models::fur_task::FurTask;
use crate::models::moment::Moment;
use crate::models::rate::Rate;

verus! {

/// What pressing the start/stop button leaves to be done.
pub struct Pressed {
    /// The task that the timer timed, to be stored.
    pub task: Option<FurTask>,
    /// The timer as it is to be kept across restarts.
    pub kept: FurPersist,
    /// Whether a synchronisation is to be requested.
    pub sync: bool,
}

/// The start/stop button.
///
/// A timer that does not run is started at `now`. A running timer on a
/// break is stopped without a task. Any other running timer is stopped at
/// `now`, its task is made from the parts of the input, and a
/// synchronisation is to follow. Stopping starts the pomodoro rhythm over.
pub fn start_stop_pressed(
    state: &mut TimerState,
    settings: &FurSettings,
    now: Moment,
    parts: TaskParts,
    rate: Rate,
    now_seconds: i64,
) -> (pressed: Pressed)
    ensures
        final(state).alert == old(state).alert,
        final(state).active_tab == old(state).active_tab,
        !old(state).is_running ==> {
            &&& final(state).is_running
            &&& final(state).start_time == now
            &&& final(state).task_input == old(state).task_input
            &&& final(state).timer_text == old(state).timer_text
            &&& final(state).pomodoro == if settings.pomodoro && !old(state).pomodoro.on_break {
                FurPomodoro {
                    sessions: one_more(old(state).pomodoro.sessions),
                    ..old(state).pomodoro
                }
            } else {
                old(state).pomodoro
            }
            &&& pressed.task is None
            &&& pressed.kept.is_running
            &&& pressed.kept.task_input == old(state).task_input
            &&& pressed.kept.start_time == now
            &&& !pressed.sync
        },
        old(state).is_running ==> {
            &&& !final(state).is_running
            &&& final(state).start_time == old(state).start_time
            &&& final(state).task_input@ == Seq::<char>::empty()
            &&& final(state).pomodoro == (FurPomodoro {
                on_break: false,
                snoozed: false,
                sessions: 0,
                ..old(state).pomodoro
            })
            &&& final(state).timer_text@ == stopped_text(*settings, final(state).pomodoro)
            &&& !pressed.kept.is_running
            &&& pressed.kept.start_time == now
            &&& pressed.sync == !old(state).pomodoro.on_break
            &&& if old(state).pomodoro.on_break {
                pressed.task is None
            } else {
                &&& pressed.task matches Some(task)
                &&& task.name == parts.name
                &&& task.project == parts.project
                &&& task.tags == parts.tags
                &&& task.rate == rate
                &&& task.start_time == old(state).start_time
                &&& task.stop_time == now
                &&& task.last_updated == now_seconds
                &&& !task.is_deleted
            }
        },
{
    if state.is_running {
        let was_on_break = state.pomodoro.on_break;
        state.pomodoro.on_break = false;
        state.pomodoro.snoozed = false;
        state.pomodoro.sessions = 0;
        if was_on_break {
            state.is_running = false;
            let kept = reset_timer(state, settings, now);
            Pressed { task: None, kept, sync: false }
        } else {
            let stopped = stop_timer(state, settings, now, parts, rate, now_seconds);
            Pressed { task: Some(stopped.task), kept: stopped.kept, sync: true }
        }
    } else {
        let kept = start_timer(state, settings, now);
        Pressed { task: None, kept, sync: false }
    }
}

} // verus!
