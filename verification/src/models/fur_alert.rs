use vstd::prelude::*;

verus! {

/// What pressing a button of an alert sets off.
#[derive(Debug, Clone, Copy, PartialEq, Eq, Structural)]
pub enum AlertAction {
    /// Nothing but closing the alert.
    Dismiss,
    /// Go on working after a break.
    ContinueAfterBreak,
    /// Stop after a break.
    StopAfterBreak,
    /// Begin a break.
    StartBreak,
    /// Stop the pomodoro timer.
    StopPomodoroTimer,
}

/// A dialog that asks the user to confirm or to choose.
#[derive(Debug)]
pub struct FurAlert {
    pub is_shown: bool,
    pub title: String,
    pub message: String,
    pub confirm_button: (String, AlertAction),
    pub cancel_button: Option<(String, AlertAction)>,
}

impl FurAlert {
    /// An alert that is not shown, with the texts `Title` and `Message` and
    /// a single button that dismisses it.
    pub fn new() -> (alert: FurAlert)
        ensures
            !alert.is_shown,
            alert.title@ == "Title"@,
            alert.message@ == "Message"@,
            alert.confirm_button.0@ == "Ok"@,
            alert.confirm_button.1 == AlertAction::Dismiss,
            alert.cancel_button is None,
    {
        FurAlert {
            is_shown: false,
            title: String::from_str("Title"),
            message: String::from_str("Message"),
            confirm_button: (String::from_str("Ok"), AlertAction::Dismiss),
            cancel_button: None,
        }
    }
}

} // verus!
