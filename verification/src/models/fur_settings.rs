use vstd::prelude::*;
use crate::helpers::view_enums::FurView;

verus! {

/// The user's preferences, and the two values that synchronisation keeps
/// between runs: the watermark `last_sync` and the flag `needs_full_sync`.
#[derive(Debug, Clone, Copy, PartialEq, Eq, Structural)]
pub struct FurSettings {
    pub chosen_idle_time: i64,
    pub days_to_show: i64,
    pub default_view: FurView,
    pub dynamic_total: bool,
    pub first_run: bool,
    pub last_sync: i64,
    pub needs_full_sync: bool,
    pub notify_of_sync: bool,
    pub notify_on_idle: bool,
    pub notify_reminder: bool,
    pub notify_reminder_interval: u16,
    pub pomodoro: bool,
    pub pomodoro_break_length: i64,
    pub pomodoro_extended_breaks: bool,
    pub pomodoro_extended_break_interval: u16,
    pub pomodoro_extended_break_length: i64,
    pub pomodoro_length: i64,
    pub pomodoro_notification_alarm_sound: bool,
    pub pomodoro_snooze_length: i64,
    pub show_chart_average_earnings: bool,
    pub show_chart_average_time: bool,
    pub show_chart_breakdown_by_selection: bool,
    pub show_chart_earnings: bool,
    pub show_chart_selection_earnings: bool,
    pub show_chart_selection_time: bool,
    pub show_chart_time_recorded: bool,
    pub show_chart_total_earnings_box: bool,
    pub show_chart_total_time_box: bool,
    pub show_daily_time_total: bool,
    pub show_delete_confirmation: bool,
    pub show_seconds: bool,
    pub show_task_earnings: bool,
    pub show_task_project: bool,
    pub show_task_tags: bool,
    pub show_todo_project: bool,
    pub show_todo_rate: bool,
    pub show_todo_tags: bool,
}

impl Default for FurSettings {
    /// The settings of a fresh installation: nothing synchronised yet, and
    /// a full synchronisation due.
    fn default() -> (settings: Self)
        ensures
            settings == FurSettings::initial(),
    {
        FurSettings {
            chosen_idle_time: 6,
            days_to_show: 365,
            default_view: FurView::Timer,
            dynamic_total: false,
            first_run: true,
            last_sync: 0,
            needs_full_sync: true,
            notify_of_sync: true,
            notify_on_idle: true,
            notify_reminder: false,
            notify_reminder_interval: 10,
            pomodoro: false,
            pomodoro_break_length: 5,
            pomodoro_extended_breaks: false,
            pomodoro_extended_break_interval: 4,
            pomodoro_extended_break_length: 25,
            pomodoro_length: 25,
            pomodoro_notification_alarm_sound: true,
            pomodoro_snooze_length: 5,
            show_chart_average_earnings: true,
            show_chart_average_time: true,
            show_chart_breakdown_by_selection: true,
            show_chart_earnings: true,
            show_chart_selection_earnings: true,
            show_chart_selection_time: true,
            show_chart_time_recorded: true,
            show_chart_total_earnings_box: true,
            show_chart_total_time_box: true,
            show_daily_time_total: true,
            show_delete_confirmation: true,
            show_seconds: true,
            show_task_earnings: true,
            show_task_project: true,
            show_task_tags: true,
            show_todo_project: true,
            show_todo_rate: true,
            show_todo_tags: true,
        }
    }
}

impl FurSettings {
    /// The settings of a fresh installation.
    pub open spec fn initial() -> FurSettings {
        FurSettings {
            chosen_idle_time: 6,
            days_to_show: 365,
            default_view: FurView::Timer,
            dynamic_total: false,
            first_run: true,
            last_sync: 0,
            needs_full_sync: true,
            notify_of_sync: true,
            notify_on_idle: true,
            notify_reminder: false,
            notify_reminder_interval: 10,
            pomodoro: false,
            pomodoro_break_length: 5,
            pomodoro_extended_breaks: false,
            pomodoro_extended_break_interval: 4,
            pomodoro_extended_break_length: 25,
            pomodoro_length: 25,
            pomodoro_notification_alarm_sound: true,
            pomodoro_snooze_length: 5,
            show_chart_average_earnings: true,
            show_chart_average_time: true,
            show_chart_breakdown_by_selection: true,
            show_chart_earnings: true,
            show_chart_selection_earnings: true,
            show_chart_selection_time: true,
            show_chart_time_recorded: true,
            show_chart_total_earnings_box: true,
            show_chart_total_time_box: true,
            show_daily_time_total: true,
            show_delete_confirmation: true,
            show_seconds: true,
            show_task_earnings: true,
            show_task_project: true,
            show_task_tags: true,
            show_todo_project: true,
            show_todo_rate: true,
            show_todo_tags: true,
        }
    }

    /// Sets `chosen_idle_time` and leaves every other setting as it is.
    pub fn change_chosen_idle_time(&mut self, value: &i64)
        ensures
            *final(self) == (FurSettings { chosen_idle_time: *value, ..*old(self) }),
    {
        *self = FurSettings { chosen_idle_time: *value, ..*self };
    }

    /// Sets `days_to_show` and leaves every other setting as it is.
    pub fn change_days_to_show(&mut self, value: &i64)
        ensures
            *final(self) == (FurSettings { days_to_show: *value, ..*old(self) }),
    {
        *self = FurSettings { days_to_show: *value, ..*self };
    }

    /// Sets `default_view` and leaves every other setting as it is.
    pub fn change_default_view(&mut self, value: &FurView)
        ensures
            *final(self) == (FurSettings { default_view: *value, ..*old(self) }),
    {
        *self = FurSettings { default_view: *value, ..*self };
    }

    /// Sets `first_run` and leaves every other setting as it is.
    pub fn change_first_run(&mut self, value: bool)
        ensures
            *final(self) == (FurSettings { first_run: value, ..*old(self) }),
    {
        *self = FurSettings { first_run: value, ..*self };
    }

    /// Sets `last_sync` and leaves every other setting as it is.
    pub fn change_last_sync(&mut self, value: &i64)
        ensures
            *final(self) == (FurSettings { last_sync: *value, ..*old(self) }),
    {
        *self = FurSettings { last_sync: *value, ..*self };
    }

    /// Sets `needs_full_sync` and leaves every other setting as it is.
    pub fn change_needs_full_sync(&mut self, value: &bool)
        ensures
            *final(self) == (FurSettings { needs_full_sync: *value, ..*old(self) }),
    {
        *self = FurSettings { needs_full_sync: *value, ..*self };
    }

    /// Sets `notify_of_sync` and leaves every other setting as it is.
    pub fn change_notify_of_sync(&mut self, value: bool)
        ensures
            *final(self) == (FurSettings { notify_of_sync: value, ..*old(self) }),
    {
        *self = FurSettings { notify_of_sync: value, ..*self };
    }

    /// Sets `notify_on_idle` and leaves every other setting as it is.
    pub fn change_notify_on_idle(&mut self, value: &bool)
        ensures
            *final(self) == (FurSettings { notify_on_idle: *value, ..*old(self) }),
    {
        *self = FurSettings { notify_on_idle: *value, ..*self };
    }

    /// Sets `notify_reminder` and leaves every other setting as it is.
    pub fn change_notify_reminder(&mut self, value: &bool)
        ensures
            *final(self) == (FurSettings { notify_reminder: *value, ..*old(self) }),
    {
        *self = FurSettings { notify_reminder: *value, ..*self };
    }

    /// Sets `notify_reminder_interval` and leaves every other setting as it is.
    pub fn change_notify_reminder_interval(&mut self, value: &u16)
        ensures
            *final(self) == (FurSettings { notify_reminder_interval: *value, ..*old(self) }),
    {
        *self = FurSettings { notify_reminder_interval: *value, ..*self };
    }

    /// Sets `dynamic_total` and leaves every other setting as it is.
    pub fn change_dynamic_total(&mut self, value: &bool)
        ensures
            *final(self) == (FurSettings { dynamic_total: *value, ..*old(self) }),
    {
        *self = FurSettings { dynamic_total: *value, ..*self };
    }

    /// Sets `pomodoro` and leaves every other setting as it is.
    pub fn change_pomodoro(&mut self, value: &bool)
        ensures
            *final(self) == (FurSettings { pomodoro: *value, ..*old(self) }),
    {
        *self = FurSettings { pomodoro: *value, ..*self };
    }

    /// Sets `pomodoro_break_length` and leaves every other setting as it is.
    pub fn change_pomodoro_break_length(&mut self, value: &i64)
        ensures
            *final(self) == (FurSettings { pomodoro_break_length: *value, ..*old(self) }),
    {
        *self = FurSettings { pomodoro_break_length: *value, ..*self };
    }

    /// Sets `pomodoro_extended_breaks` and leaves every other setting as it is.
    pub fn change_pomodoro_extended_breaks(&mut self, value: &bool)
        ensures
            *final(self) == (FurSettings { pomodoro_extended_breaks: *value, ..*old(self) }),
    {
        *self = FurSettings { pomodoro_extended_breaks: *value, ..*self };
    }

    /// Sets `pomodoro_extended_break_interval` and leaves every other setting as it is.
    pub fn change_pomodoro_extended_break_interval(&mut self, value: &u16)
        ensures
            *final(self) == (FurSettings { pomodoro_extended_break_interval: *value, ..*old(self) }),
    {
        *self = FurSettings { pomodoro_extended_break_interval: *value, ..*self };
    }

    /// Sets `pomodoro_extended_break_length` and leaves every other setting as it is.
    pub fn change_pomodoro_extended_break_length(&mut self, value: &i64)
        ensures
            *final(self) == (FurSettings { pomodoro_extended_break_length: *value, ..*old(self) }),
    {
        *self = FurSettings { pomodoro_extended_break_length: *value, ..*self };
    }

    /// Sets `pomodoro_length` and leaves every other setting as it is.
    pub fn change_pomodoro_length(&mut self, value: &i64)
        ensures
            *final(self) == (FurSettings { pomodoro_length: *value, ..*old(self) }),
    {
        *self = FurSettings { pomodoro_length: *value, ..*self };
    }

    /// Sets `pomodoro_snooze_length` and leaves every other setting as it is.
    pub fn change_pomodoro_snooze_length(&mut self, value: &i64)
        ensures
            *final(self) == (FurSettings { pomodoro_snooze_length: *value, ..*old(self) }),
    {
        *self = FurSettings { pomodoro_snooze_length: *value, ..*self };
    }

    /// Sets `pomodoro_notification_alarm_sound` and leaves every other setting as it is.
    pub fn change_pomodoro_notification_alarm_sound(&mut self, value: &bool)
        ensures
            *final(self) == (FurSettings { pomodoro_notification_alarm_sound: *value, ..*old(self) }),
    {
        *self = FurSettings { pomodoro_notification_alarm_sound: *value, ..*self };
    }

    /// Sets `show_daily_time_total` and leaves every other setting as it is.
    pub fn change_show_daily_time_total(&mut self, value: &bool)
        ensures
            *final(self) == (FurSettings { show_daily_time_total: *value, ..*old(self) }),
    {
        *self = FurSettings { show_daily_time_total: *value, ..*self };
    }

    /// Sets `show_delete_confirmation` and leaves every other setting as it is.
    pub fn change_show_delete_confirmation(&mut self, value: &bool)
        ensures
            *final(self) == (FurSettings { show_delete_confirmation: *value, ..*old(self) }),
    {
        *self = FurSettings { show_delete_confirmation: *value, ..*self };
    }

    /// Sets `show_chart_average_earnings` and leaves every other setting as it is.
    pub fn change_show_chart_average_earnings(&mut self, value: &bool)
        ensures
            *final(self) == (FurSettings { show_chart_average_earnings: *value, ..*old(self) }),
    {
        *self = FurSettings { show_chart_average_earnings: *value, ..*self };
    }

    /// Sets `show_chart_average_time` and leaves every other setting as it is.
    pub fn change_show_chart_average_time(&mut self, value: &bool)
        ensures
            *final(self) == (FurSettings { show_chart_average_time: *value, ..*old(self) }),
    {
        *self = FurSettings { show_chart_average_time: *value, ..*self };
    }

    /// Sets `show_chart_breakdown_by_selection` and leaves every other setting as it is.
    pub fn change_show_chart_breakdown_by_selection(&mut self, value: &bool)
        ensures
            *final(self) == (FurSettings { show_chart_breakdown_by_selection: *value, ..*old(self) }),
    {
        *self = FurSettings { show_chart_breakdown_by_selection: *value, ..*self };
    }

    /// Sets `show_chart_earnings` and leaves every other setting as it is.
    pub fn change_show_chart_earnings(&mut self, value: &bool)
        ensures
            *final(self) == (FurSettings { show_chart_earnings: *value, ..*old(self) }),
    {
        *self = FurSettings { show_chart_earnings: *value, ..*self };
    }

    /// Sets `show_chart_selection_earnings` and leaves every other setting as it is.
    pub fn change_show_chart_selection_earnings(&mut self, value: &bool)
        ensures
            *final(self) == (FurSettings { show_chart_selection_earnings: *value, ..*old(self) }),
    {
        *self = FurSettings { show_chart_selection_earnings: *value, ..*self };
    }

    /// Sets `show_chart_selection_time` and leaves every other setting as it is.
    pub fn change_show_chart_selection_time(&mut self, value: &bool)
        ensures
            *final(self) == (FurSettings { show_chart_selection_time: *value, ..*old(self) }),
    {
        *self = FurSettings { show_chart_selection_time: *value, ..*self };
    }

    /// Sets `show_chart_time_recorded` and leaves every other setting as it is.
    pub fn change_show_chart_time_recorded(&mut self, value: &bool)
        ensures
            *final(self) == (FurSettings { show_chart_time_recorded: *value, ..*old(self) }),
    {
        *self = FurSettings { show_chart_time_recorded: *value, ..*self };
    }

    /// Sets `show_chart_total_earnings_box` and leaves every other setting as it is.
    pub fn change_show_chart_total_earnings_box(&mut self, value: &bool)
        ensures
            *final(self) == (FurSettings { show_chart_total_earnings_box: *value, ..*old(self) }),
    {
        *self = FurSettings { show_chart_total_earnings_box: *value, ..*self };
    }

    /// Sets `show_chart_total_time_box` and leaves every other setting as it is.
    pub fn change_show_chart_total_time_box(&mut self, value: &bool)
        ensures
            *final(self) == (FurSettings { show_chart_total_time_box: *value, ..*old(self) }),
    {
        *self = FurSettings { show_chart_total_time_box: *value, ..*self };
    }

    /// Sets `show_seconds` and leaves every other setting as it is.
    pub fn change_show_seconds(&mut self, value: &bool)
        ensures
            *final(self) == (FurSettings { show_seconds: *value, ..*old(self) }),
    {
        *self = FurSettings { show_seconds: *value, ..*self };
    }

    /// Sets `show_task_earnings` and leaves every other setting as it is.
    pub fn change_show_task_earnings(&mut self, value: &bool)
        ensures
            *final(self) == (FurSettings { show_task_earnings: *value, ..*old(self) }),
    {
        *self = FurSettings { show_task_earnings: *value, ..*self };
    }

    /// Sets `show_task_project` and leaves every other setting as it is.
    pub fn change_show_task_project(&mut self, value: &bool)
        ensures
            *final(self) == (FurSettings { show_task_project: *value, ..*old(self) }),
    {
        *self = FurSettings { show_task_project: *value, ..*self };
    }

    /// Sets `show_task_tags` and leaves every other setting as it is.
    pub fn change_show_task_tags(&mut self, value: &bool)
        ensures
            *final(self) == (FurSettings { show_task_tags: *value, ..*old(self) }),
    {
        *self = FurSettings { show_task_tags: *value, ..*self };
    }

    /// Sets `show_todo_project` and leaves every other setting as it is.
    pub fn change_show_todo_project(&mut self, value: &bool)
        ensures
            *final(self) == (FurSettings { show_todo_project: *value, ..*old(self) }),
    {
        *self = FurSettings { show_todo_project: *value, ..*self };
    }

    /// Sets `show_todo_rate` and leaves every other setting as it is.
    pub fn change_show_todo_rate(&mut self, value: &bool)
        ensures
            *final(self) == (FurSettings { show_todo_rate: *value, ..*old(self) }),
    {
        *self = FurSettings { show_todo_rate: *value, ..*self };
    }

    /// Sets `show_todo_tags` and leaves every other setting as it is.
    pub fn change_show_todo_tags(&mut self, value: &bool)
        ensures
            *final(self) == (FurSettings { show_todo_tags: *value, ..*old(self) }),
    {
        *self = FurSettings { show_todo_tags: *value, ..*self };
    }
}

} // verus!
