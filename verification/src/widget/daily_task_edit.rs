//! The form that edits a daily task in place.

use vstd::prelude::*;
use crate::task::{DailyTask, TaskPriority};

verus! {

/// The form, holding the task it edits.
pub struct DailyTaskEdit<'a> {
    pub task: &'a mut DailyTask,
}

impl<'a> DailyTaskEdit<'a> {
    /// A form over `task`; whatever the form changes, the task holds once the
    /// form is gone.
    pub fn new(task: &'a mut DailyTask) -> (edit: Self)
        ensures
            *edit.task == *old(task),
            *final(task) == *final(edit.task),
    {
        Self { task }
    }

    /// The active box was set or cleared.
    pub fn set_active(&mut self, active: bool)
        ensures
            *final(self).task == (DailyTask { active, ..*old(self).task }),
            *final(final(self).task) == *final(old(self).task),
    {
        self.task.active = active;
    }

    /// A priority was picked.
    pub fn set_priority(&mut self, priority: TaskPriority)
        ensures
            *final(self).task == (DailyTask { priority, ..*old(self).task }),
            *final(final(self).task) == *final(old(self).task),
    {
        self.task.priority = priority;
    }
}

} // verus!
