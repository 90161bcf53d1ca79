//! The form that edits a monthly task in place.

use vstd::prelude::*;
use crate::task::{MonthlyTask, TaskPriority};

verus! {

/// The form, holding the task it edits.
pub struct MonthlyTaskEdit<'a> {
    pub monthly_task: &'a mut MonthlyTask,
}

/// The days of the month offered by the day pickers: 1 to 31.
pub fn day_options() -> (days: Vec<i16>)
    ensures
        days@.len() == 31,
        forall|i: int| 0 <= i < 31 ==> days@[i] == i + 1,
{
    let mut days: Vec<i16> = Vec::new();
    let mut day: i16 = 1;
    while day <= 31
        invariant
            1 <= day <= 32,
            days@.len() == day - 1,
            forall|i: int| 0 <= i < days@.len() ==> days@[i] == i + 1,
        decreases 32 - day,
    {
        days.push(day);
        day = day + 1;
    }
    days
}

impl<'a> MonthlyTaskEdit<'a> {
    /// A form over `monthly_task`; whatever the form changes, the task holds
    /// once the form is gone.
    pub fn new(monthly_task: &'a mut MonthlyTask) -> (edit: Self)
        ensures
            *edit.monthly_task == *old(monthly_task),
            *final(monthly_task) == *final(edit.monthly_task),
    {
        Self { monthly_task }
    }

    /// The active box was set or cleared.
    pub fn set_active(&mut self, active: bool)
        ensures
            *final(self).monthly_task == (MonthlyTask { active, ..*old(self).monthly_task }),
            *final(final(self).monthly_task) == *final(old(self).monthly_task),
    {
        self.monthly_task.active = active;
    }

    /// A priority was picked.
    pub fn set_priority(&mut self, priority: TaskPriority)
        ensures
            *final(self).monthly_task == (MonthlyTask { priority, ..*old(self).monthly_task }),
            *final(final(self).monthly_task) == *final(old(self).monthly_task),
    {
        self.monthly_task.priority = priority;
    }

    /// The first and the last day of the month were picked.
    pub fn set_duration(&mut self, start_day: i16, due_day: i16)
        ensures
            *final(self).monthly_task == (MonthlyTask {
                start_day,
                due_day,
                ..*old(self).monthly_task
            }),
            *final(final(self).monthly_task) == *final(old(self).monthly_task),
    {
        self.monthly_task.start_day = start_day;
        self.monthly_task.due_day = due_day;
    }
}

} // verus!
