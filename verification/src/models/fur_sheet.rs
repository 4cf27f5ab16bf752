use vstd::prelude::*;
use crate::models::fur_shortcut::FurShortcut;
use crate::models::fur_task::FurTask;
use crate::models::fur_task_group::FurTaskGroup;
use crate::models::fur_todo::FurTodo;

verus! {

/// Which sheets are open, and on what.
#[derive(Debug)]
pub struct FurSheet {
    pub new_task_is_shown: bool,
    pub new_shortcut_is_shown: bool,
    pub new_todo_is_shown: bool,
    pub group_details_sheet: Option<FurTaskGroup>,
    pub task_edit_sheet: Option<FurTask>,
    pub add_to_group_sheet: Option<FurTaskGroup>,
    pub edit_group_sheet: Option<FurTaskGroup>,
    pub edit_todo_sheet: Option<FurTodo>,
    pub edit_shortcut_sheet: Option<FurShortcut>,
}

impl FurSheet {
    /// No sheet is open.
    pub open spec fn all_closed(&self) -> bool {
        &&& !self.new_task_is_shown
        &&& !self.new_shortcut_is_shown
        &&& !self.new_todo_is_shown
        &&& self.group_details_sheet is None
        &&& self.task_edit_sheet is None
        &&& self.add_to_group_sheet is None
        &&& self.edit_group_sheet is None
        &&& self.edit_todo_sheet is None
        &&& self.edit_shortcut_sheet is None
    }

    /// The sheets with none of them open.
    pub fn new() -> (sheets: FurSheet)
        ensures
            sheets.all_closed(),
    {
        FurSheet {
            new_task_is_shown: false,
            new_shortcut_is_shown: false,
            new_todo_is_shown: false,
            group_details_sheet: None,
            task_edit_sheet: None,
            add_to_group_sheet: None,
            edit_group_sheet: None,
            edit_todo_sheet: None,
            edit_shortcut_sheet: None,
        }
    }
}

} // verus!
