use vstd::prelude::*;

verus! {

/// The views of the application, one of which opens at start.
#[derive(Debug, Clone, Copy, PartialEq, Eq, Structural)]
pub enum FurView {
    Shortcuts,
    Timer,
    Todo,
    Report,
    Settings,
}

impl FurView {
    /// Every view, in the order in which they are offered.
    pub fn all() -> (views: [FurView; 5])
        ensures
            views@ == seq![
                FurView::Shortcuts,
                FurView::Timer,
                FurView::Todo,
                FurView::Report,
                FurView::Settings,
            ],
    {
        [FurView::Shortcuts, FurView::Timer, FurView::Todo, FurView::Report, FurView::Settings]
    }

    /// The key under which the view's name is found in the message catalogue.
    pub fn message_key(&self) -> (key: &'static str)
        ensures
            key@ == match *self {
                FurView::Shortcuts => "shortcuts"@,
                FurView::Timer => "timer"@,
                FurView::Todo => "todo"@,
                FurView::Report => "report"@,
                FurView::Settings => "settings"@,
            },
    {
        match self {
            FurView::Shortcuts => "shortcuts",
            FurView::Timer => "timer",
            FurView::Todo => "todo",
            FurView::Report => "report",
            FurView::Settings => "settings",
        }
    }
}

} // verus!
