use vstd::prelude::*;
use crate::helpers::formatters::{seconds_to_hms, spec_hms};
use crate::models::fur_alert::{AlertAction, FurAlert};
use crate::models::fur_persist::{reset_persisting_timer, FurPersist};
use crate::models::fur_pomodoro::FurPomodoro;
use crate::helpers::text::same_text;
use crate::models::fur_settings::FurSettings;
use crate::models::fur_task::{spec_task_uid, FurTask};
use crate::models::moment::Moment;
use crate::models::rate::Rate;

verus! {

/// The tabs of the application.
#[derive(Debug, Clone, Copy, PartialEq, Eq, Structural)]
pub enum NavTab {
    Timer,
    Todos,
    Shortcuts,
    Settings,
}

/// The timer and what belongs to it: whether it runs, what was typed, what
/// it shows, when it started, the pomodoro rhythm, the alert, and the tab
/// in front.
pub struct TimerState {
    pub is_running: bool,
    pub task_input: String,
    pub timer_text: String,
    pub start_time: Moment,
    pub pomodoro: FurPomodoro,
    pub alert: FurAlert,
    pub active_tab: NavTab,
}

/// `n`, held to the range of an `i64`.
pub open spec fn clamped(n: int) -> int {
    if n > i64::MAX {
        i64::MAX as int
    } else if n < i64::MIN {
        i64::MIN as int
    } else {
        n
    }
}

/// Brings a wide number into the range of an `i64`.
fn clamp(n: i128) -> (r: i64)
    ensures
        r == clamped(n as int),
{
    if n > i64::MAX as i128 {
        i64::MAX
    } else if n < i64::MIN as i128 {
        i64::MIN
    } else {
        n as i64
    }
}

/// Whether the break that is due is an extended one: extended breaks are
/// on, and the number of sessions is a multiple of the interval. An interval
/// of zero means that no break is extended.
pub open spec fn extended_break_due(settings: FurSettings, pomodoro: FurPomodoro) -> bool {
    &&& settings.pomodoro_extended_breaks
    &&& settings.pomodoro_extended_break_interval != 0
    &&& pomodoro.sessions as int % settings.pomodoro_extended_break_interval as int == 0
}

/// Whether the break that is due is an extended one.
pub fn is_extended_break_due(settings: &FurSettings, pomodoro: &FurPomodoro) -> (due: bool)
    ensures
        due == extended_break_due(*settings, *pomodoro),
{
    settings.pomodoro_extended_breaks && settings.pomodoro_extended_break_interval != 0
        && pomodoro.sessions % settings.pomodoro_extended_break_interval == 0
}

/// The minutes that the present phase of the rhythm lasts: a break, short
/// or extended; a snooze; or a session.
pub open spec fn phase_minutes(settings: FurSettings, pomodoro: FurPomodoro) -> int {
    if pomodoro.on_break {
        if extended_break_due(settings, pomodoro) {
            settings.pomodoro_extended_break_length as int
        } else {
            settings.pomodoro_break_length as int
        }
    } else if pomodoro.snoozed {
        settings.pomodoro_snooze_length as int
    } else {
        settings.pomodoro_length as int
    }
}

/// The minutes that the present phase of the rhythm lasts.
pub fn current_phase_minutes(settings: &FurSettings, pomodoro: &FurPomodoro) -> (minutes: i64)
    ensures
        minutes == phase_minutes(*settings, *pomodoro),
{
    if pomodoro.on_break {
        if is_extended_break_due(settings, pomodoro) {
            settings.pomodoro_extended_break_length
        } else {
            settings.pomodoro_break_length
        }
    } else if pomodoro.snoozed {
        settings.pomodoro_snooze_length
    } else {
        settings.pomodoro_length
    }
}

/// The seconds from the timer's start to the end of the present phase. A
/// break and a session end their length after the start; a snooze ends its
/// length after the moment of snoozing.
pub open spec fn phase_seconds(settings: FurSettings, pomodoro: FurPomodoro, start: Moment) -> int {
    if !pomodoro.on_break && pomodoro.snoozed {
        let span = pomodoro.snoozed_at.spec_nanos() + settings.pomodoro_snooze_length as int
            * 60_000_000_000 - start.spec_nanos();
        if span >= 0 {
            span / 1_000_000_000
        } else {
            -((-span) / 1_000_000_000)
        }
    } else {
        phase_minutes(settings, pomodoro) * 60
    }
}

/// What a running timer shows after `seconds_elapsed` seconds: the time
/// that has passed, or with the pomodoro rhythm the time that is left of the
/// present phase, and zero once the phase is over. Times beyond the range
/// of an `i64` are shown as the nearest one within it.
pub open spec fn running_text(
    settings: FurSettings,
    pomodoro: FurPomodoro,
    start: Moment,
    seconds_elapsed: int,
) -> Seq<char> {
    if settings.pomodoro {
        let left = phase_seconds(settings, pomodoro, start) - seconds_elapsed;
        if left > 0 {
            spec_hms(clamped(left))
        } else {
            "0:00:00"@
        }
    } else {
        spec_hms(seconds_elapsed)
    }
}

/// What a stopped timer shows: zero, or with the pomodoro rhythm the length
/// of the phase that would begin.
pub open spec fn stopped_text(settings: FurSettings, pomodoro: FurPomodoro) -> Seq<char> {
    if settings.pomodoro {
        spec_hms(clamped(phase_minutes(settings, pomodoro) * 60))
    } else {
        "0:00:00"@
    }
}

/// What the timer shows.
pub open spec fn timer_text(
    is_running: bool,
    settings: FurSettings,
    pomodoro: FurPomodoro,
    start: Moment,
    seconds_elapsed: int,
) -> Seq<char> {
    if is_running {
        running_text(settings, pomodoro, start, seconds_elapsed)
    } else {
        stopped_text(settings, pomodoro)
    }
}

/// Writes what a running timer shows.
pub fn get_running_timer_text(
    settings: &FurSettings,
    pomodoro: &FurPomodoro,
    start: &Moment,
    seconds_elapsed: i64,
) -> (text: String)
    ensures
        text@ == running_text(*settings, *pomodoro, *start, seconds_elapsed as int),
{
    if settings.pomodoro {
        let to_run: i128 = if !pomodoro.on_break && pomodoro.snoozed {
            let end: i128 = pomodoro.snoozed_at.seconds as i128 * 1_000_000_000
                + pomodoro.snoozed_at.nanos as i128 + settings.pomodoro_snooze_length as i128
                * 60_000_000_000;
            let begin: i128 = start.seconds as i128 * 1_000_000_000 + start.nanos as i128;
            (end - begin) / 1_000_000_000
        } else {
            current_phase_minutes(settings, pomodoro) as i128 * 60
        };
        let left: i128 = to_run - seconds_elapsed as i128;
        if left > 0 {
            seconds_to_hms(clamp(left))
        } else {
            String::from_str("0:00:00")
        }
    } else {
        seconds_to_hms(seconds_elapsed)
    }
}

/// Writes what a stopped timer shows.
pub fn get_stopped_timer_text(settings: &FurSettings, pomodoro: &FurPomodoro) -> (text: String)
    ensures
        text@ == stopped_text(*settings, *pomodoro),
{
    if settings.pomodoro {
        seconds_to_hms(clamp(current_phase_minutes(settings, pomodoro) as i128 * 60))
    } else {
        String::from_str("0:00:00")
    }
}

/// Writes what the timer shows after `seconds_elapsed` seconds.
pub fn get_timer_text(state: &TimerState, settings: &FurSettings, seconds_elapsed: i64) -> (text:
    String)
    ensures
        text@ == timer_text(
            state.is_running,
            *settings,
            state.pomodoro,
            state.start_time,
            seconds_elapsed as int,
        ),
{
    if state.is_running {
        get_running_timer_text(settings, &state.pomodoro, &state.start_time, seconds_elapsed)
    } else {
        get_stopped_timer_text(settings, &state.pomodoro)
    }
}

/// Resets the timer: the input is emptied and the timer shows what it shows
/// at zero seconds. The result is the timer as it is to be kept across
/// restarts: stopped, stamped with `now`.
pub fn reset_timer(state: &mut TimerState, settings: &FurSettings, now: Moment) -> (kept: FurPersist)
    ensures
        final(state).task_input@ == Seq::<char>::empty(),
        final(state).timer_text@ == timer_text(
            old(state).is_running,
            *settings,
            old(state).pomodoro,
            old(state).start_time,
            0,
        ),
        final(state).is_running == old(state).is_running,
        final(state).start_time == old(state).start_time,
        final(state).pomodoro == old(state).pomodoro,
        final(state).alert == old(state).alert,
        final(state).active_tab == old(state).active_tab,
        !kept.is_running,
        kept.task_input@ == Seq::<char>::empty(),
        kept.start_time == now,
{
    state.task_input = String::new();
    let text = get_timer_text(state, settings, 0);
    state.timer_text = text;
    reset_persisting_timer(now)
}

/// One more session, up to the greatest count.
pub open spec fn one_more(sessions: u16) -> u16 {
    if sessions < u16::MAX {
        (sessions + 1) as u16
    } else {
        sessions
    }
}

/// Starts the timer at `now`. With the pomodoro rhythm, and not on a break,
/// a session is counted. The result is the timer as it is to be kept across
/// restarts: running, with the input and the start.
pub fn start_timer(state: &mut TimerState, settings: &FurSettings, now: Moment) -> (kept: FurPersist)
    ensures
        final(state).is_running,
        final(state).start_time == now,
        final(state).task_input == old(state).task_input,
        final(state).timer_text == old(state).timer_text,
        final(state).alert == old(state).alert,
        final(state).active_tab == old(state).active_tab,
        final(state).pomodoro == if settings.pomodoro && !old(state).pomodoro.on_break {
            FurPomodoro { sessions: one_more(old(state).pomodoro.sessions), ..old(state).pomodoro }
        } else {
            old(state).pomodoro
        },
        kept.is_running,
        kept.task_input == old(state).task_input,
        kept.start_time == now,
{
    state.start_time = now;
    state.is_running = true;
    if settings.pomodoro && !state.pomodoro.on_break {
        if state.pomodoro.sessions < u16::MAX {
            state.pomodoro.sessions = state.pomodoro.sessions + 1;
        }
    }
    FurPersist { is_running: true, task_input: state.task_input.clone(), start_time: now }
}

/// Starts the timer on a task, if it is not running: the task becomes the
/// input, the timer starts at `now`, and the timer tab comes to the front.
/// A running timer is left alone, and nothing is to be kept.
pub fn start_timer_with_task(
    state: &mut TimerState,
    settings: &FurSettings,
    task_text: String,
    now: Moment,
) -> (kept: Option<FurPersist>)
    ensures
        old(state).is_running ==> *final(state) == *old(state) && kept is None,
        !old(state).is_running ==> {
            &&& final(state).is_running
            &&& final(state).start_time == now
            &&& final(state).task_input == task_text
            &&& final(state).timer_text == old(state).timer_text
            &&& final(state).alert == old(state).alert
            &&& final(state).active_tab == NavTab::Timer
            &&& final(state).pomodoro == if settings.pomodoro && !old(state).pomodoro.on_break {
                FurPomodoro {
                    sessions: one_more(old(state).pomodoro.sessions),
                    ..old(state).pomodoro
                }
            } else {
                old(state).pomodoro
            }
            &&& kept matches Some(k)
            &&& k.is_running
            &&& k.task_input == task_text
            &&& k.start_time == now
        },
{
    if !state.is_running {
        state.task_input = task_text;
        let kept = start_timer(state, settings, now);
        state.active_tab = NavTab::Timer;
        Some(kept)
    } else {
        None
    }
}

/// What was typed into the timer, taken apart: the task's name, its
/// project, its tags, and its rate as it was written.
#[derive(Debug)]
pub struct TaskParts {
    pub name: String,
    pub project: String,
    pub tags: String,
    pub rate_text: String,
}

/// What stopping the timer leaves to be done: the task to store, and the
/// timer as it is to be kept across restarts.
pub struct Stopped {
    pub task: FurTask,
    pub kept: FurPersist,
}

/// Stops the timer at `stop_time` and makes the task that it timed: from
/// the timer's start to `stop_time`, with the parts of the input, the rate
/// they name, and no currency. The timer is reset.
pub fn stop_timer(
    state: &mut TimerState,
    settings: &FurSettings,
    stop_time: Moment,
    parts: TaskParts,
    rate: Rate,
    now: i64,
) -> (stopped: Stopped)
    ensures
        !final(state).is_running,
        final(state).task_input@ == Seq::<char>::empty(),
        final(state).timer_text@ == stopped_text(*settings, old(state).pomodoro),
        final(state).start_time == old(state).start_time,
        final(state).pomodoro == old(state).pomodoro,
        final(state).alert == old(state).alert,
        final(state).active_tab == old(state).active_tab,
        stopped.task.name == parts.name,
        stopped.task.project == parts.project,
        stopped.task.tags == parts.tags,
        stopped.task.rate == rate,
        stopped.task.currency@ == Seq::<char>::empty(),
        stopped.task.start_time == old(state).start_time,
        stopped.task.stop_time == stop_time,
        stopped.task.uid@ == spec_task_uid(parts.name@, old(state).start_time, stop_time),
        !stopped.task.is_deleted,
        stopped.task.last_updated == now,
        !stopped.kept.is_running,
        stopped.kept.task_input@ == Seq::<char>::empty(),
        stopped.kept.start_time == stop_time,
{
    state.is_running = false;
    let task = FurTask::new(
        parts.name,
        state.start_time,
        stop_time,
        parts.tags,
        parts.project,
        rate,
        String::new(),
        now,
    );
    let kept = reset_timer(state, settings, stop_time);
    Stopped { task, kept }
}

/// Whether an alert is shown with these texts and buttons. The texts are
/// keys of the message catalogue.
pub open spec fn alert_shows(
    alert: FurAlert,
    title: Seq<char>,
    message: Seq<char>,
    confirm: (Seq<char>, AlertAction),
    cancel: (Seq<char>, AlertAction),
) -> bool {
    &&& alert.is_shown
    &&& alert.title@ == title
    &&& alert.message@ == message
    &&& alert.confirm_button.0@ == confirm.0
    &&& alert.confirm_button.1 == confirm.1
    &&& alert.cancel_button matches Some(button)
    &&& button.0@ == cancel.0
    &&& button.1 == cancel.1
}

/// Whether the end of a phase is to be announced: the pomodoro rhythm is
/// on, the timer shows zero after more than two seconds, and no alert is
/// in the way.
pub open spec fn phase_is_over(
    settings: FurSettings,
    text: Seq<char>,
    seconds_elapsed: int,
    alert_shown: bool,
) -> bool {
    settings.pomodoro && text == "0:00:00"@ && seconds_elapsed > 2 && !alert_shown
}

/// One tick of the running timer, `seconds_elapsed` seconds after its
/// start. A timer that does not run is left alone. A running one shows the
/// new time; and when a phase of the pomodoro rhythm is over, an alert
/// says so: after a break it offers to continue or to stop, after a session
/// to take a break, long or short, or to stop.
pub fn ensure_timer_running(state: &mut TimerState, settings: &FurSettings, seconds_elapsed: i64)
    ensures
        final(state).is_running == old(state).is_running,
        final(state).task_input == old(state).task_input,
        final(state).start_time == old(state).start_time,
        final(state).pomodoro == old(state).pomodoro,
        final(state).active_tab == old(state).active_tab,
        !old(state).is_running ==> {
            &&& final(state).timer_text == old(state).timer_text
            &&& final(state).alert == old(state).alert
        },
        old(state).is_running ==> {
            let text = running_text(
                *settings,
                old(state).pomodoro,
                old(state).start_time,
                seconds_elapsed as int,
            );
            &&& final(state).timer_text@ == text
            &&& if phase_is_over(*settings, text, seconds_elapsed as int, old(state).alert.is_shown) {
                if old(state).pomodoro.on_break {
                    alert_shows(
                        final(state).alert,
                        "break-over-title"@,
                        "break-over-description"@,
                        ("continue"@, AlertAction::ContinueAfterBreak),
                        ("stop"@, AlertAction::StopAfterBreak),
                    )
                } else {
                    alert_shows(
                        final(state).alert,
                        "pomodoro-over-title"@,
                        "pomodoro-over-description"@,
                        (
                            if extended_break_due(*settings, old(state).pomodoro) {
                                "long-break"@
                            } else {
                                "break"@
                            },
                            AlertAction::StartBreak,
                        ),
                        ("stop"@, AlertAction::StopPomodoroTimer),
                    )
                }
            } else {
                final(state).alert == old(state).alert
            }
        },
{
    if state.is_running {
        let text = get_timer_text(state, settings, seconds_elapsed);
        let at_zero = same_text(text.as_str(), "0:00:00");
        state.timer_text = text;
        if settings.pomodoro && at_zero && seconds_elapsed > 2 && !state.alert.is_shown {
            if state.pomodoro.on_break {
                state.alert = FurAlert {
                    is_shown: true,
                    title: String::from_str("break-over-title"),
                    message: String::from_str("break-over-description"),
                    confirm_button: (String::from_str("continue"), AlertAction::ContinueAfterBreak),
                    cancel_button: Some((String::from_str("stop"), AlertAction::StopAfterBreak)),
                };
            } else {
                let label = if is_extended_break_due(settings, &state.pomodoro) {
                    "long-break"
                } else {
                    "break"
                };
                state.alert = FurAlert {
                    is_shown: true,
                    title: String::from_str("pomodoro-over-title"),
                    message: String::from_str("pomodoro-over-description"),
                    confirm_button: (String::from_str(label), AlertAction::StartBreak),
                    cancel_button: Some((String::from_str("stop"), AlertAction::StopPomodoroTimer)),
                };
            }
        }
    }
}

/// Ends the pomodoro rhythm from the alert at the end of a session: the
/// timer stops at `stop_time` and its task is made, the count of sessions
/// starts over, and the alert goes. A synchronisation is to be requested.
pub fn stop_pomodoro_timer(
    state: &mut TimerState,
    settings: &FurSettings,
    stop_time: Moment,
    parts: TaskParts,
    rate: Rate,
    now: i64,
) -> (stopped: Stopped)
    ensures
        !final(state).is_running,
        final(state).task_input@ == Seq::<char>::empty(),
        final(state).timer_text@ == stopped_text(
            *settings,
            FurPomodoro { snoozed: false, ..old(state).pomodoro },
        ),
        final(state).start_time == old(state).start_time,
        final(state).pomodoro == (FurPomodoro { snoozed: false, sessions: 0, ..old(state).pomodoro }),
        !final(state).alert.is_shown,
        final(state).alert.title == old(state).alert.title,
        final(state).alert.message == old(state).alert.message,
        final(state).alert.confirm_button == old(state).alert.confirm_button,
        final(state).alert.cancel_button == old(state).alert.cancel_button,
        final(state).active_tab == old(state).active_tab,
        stopped.task.name == parts.name,
        stopped.task.project == parts.project,
        stopped.task.tags == parts.tags,
        stopped.task.rate == rate,
        stopped.task.start_time == old(state).start_time,
        stopped.task.stop_time == stop_time,
        stopped.task.last_updated == now,
        !stopped.task.is_deleted,
{
    state.pomodoro.snoozed = false;
    let stopped = stop_timer(state, settings, stop_time, parts, rate, now);
    state.alert.is_shown = false;
    state.pomodoro.sessions = 0;
    stopped
}

/// Begins a break from the alert at the end of a session: the timer stops
/// at `now` and its task is made, then it starts again at once, on a
/// break, with the same input, and the alert goes. A synchronisation is to
/// be requested. The result is the task and the timer as it is to be kept:
/// running.
pub fn start_break(
    state: &mut TimerState,
    settings: &FurSettings,
    now: Moment,
    parts: TaskParts,
    rate: Rate,
    now_seconds: i64,
) -> (stopped: Stopped)
    ensures
        final(state).is_running,
        final(state).task_input == old(state).task_input,
        final(state).timer_text@ == stopped_text(
            *settings,
            FurPomodoro { on_break: true, snoozed: false, ..old(state).pomodoro },
        ),
        final(state).start_time == now,
        final(state).pomodoro == (FurPomodoro {
            on_break: true,
            snoozed: false,
            ..old(state).pomodoro
        }),
        !final(state).alert.is_shown,
        final(state).active_tab == old(state).active_tab,
        stopped.task.name == parts.name,
        stopped.task.rate == rate,
        stopped.task.start_time == old(state).start_time,
        stopped.task.stop_time == now,
        stopped.task.last_updated == now_seconds,
        stopped.kept.is_running,
        stopped.kept.task_input == old(state).task_input,
        stopped.kept.start_time == now,
{
    let typed = state.task_input.clone();
    state.pomodoro.on_break = true;
    state.pomodoro.snoozed = false;
    let stopped = stop_timer(state, settings, now, parts, rate, now_seconds);
    state.task_input = typed;
    state.alert.is_shown = false;
    let kept = start_timer(state, settings, now);
    Stopped { task: stopped.task, kept }
}

/// Stops for good from the alert at the end of a break: the timer stops
/// without a task, the rhythm starts over, the timer is reset and the alert
/// goes.
pub fn stop_after_break(state: &mut TimerState, settings: &FurSettings, now: Moment) -> (kept:
    FurPersist)
    ensures
        !final(state).is_running,
        final(state).task_input@ == Seq::<char>::empty(),
        final(state).pomodoro == (FurPomodoro {
            on_break: false,
            snoozed: false,
            sessions: 0,
            ..old(state).pomodoro
        }),
        final(state).timer_text@ == stopped_text(*settings, final(state).pomodoro),
        final(state).start_time == old(state).start_time,
        !final(state).alert.is_shown,
        final(state).active_tab == old(state).active_tab,
        !kept.is_running,
        kept.start_time == now,
{
    state.is_running = false;
    state.pomodoro.on_break = false;
    state.pomodoro.snoozed = false;
    state.pomodoro.sessions = 0;
    let kept = reset_timer(state, settings, now);
    state.alert.is_shown = false;
    kept
}

/// Goes back to work from the alert at the end of a break: the break ends
/// without a task, and the timer starts again at `now` with the same input,
/// which counts a session where the rhythm is on. The alert goes. A
/// synchronisation is to be requested.
pub fn continue_after_break(state: &mut TimerState, settings: &FurSettings, now: Moment) -> (kept:
    FurPersist)
    ensures
        final(state).is_running,
        final(state).task_input == old(state).task_input,
        final(state).start_time == now,
        final(state).pomodoro == (FurPomodoro {
            on_break: false,
            snoozed: false,
            sessions: if settings.pomodoro {
                one_more(old(state).pomodoro.sessions)
            } else {
                old(state).pomodoro.sessions
            },
            ..old(state).pomodoro
        }),
        final(state).timer_text@ == stopped_text(
            *settings,
            FurPomodoro { on_break: false, snoozed: false, ..old(state).pomodoro },
        ),
        !final(state).alert.is_shown,
        final(state).active_tab == old(state).active_tab,
        kept.is_running,
        kept.task_input == old(state).task_input,
        kept.start_time == now,
{
    state.is_running = false;
    let typed = state.task_input.clone();
    state.pomodoro.on_break = false;
    state.pomodoro.snoozed = false;
    let _ = reset_timer(state, settings, now);
    state.task_input = typed;
    state.alert.is_shown = false;
    start_timer(state, settings, now)
}

} // verus!
