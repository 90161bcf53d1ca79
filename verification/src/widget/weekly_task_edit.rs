//! The form that edits a weekly task in place.

use vstd::prelude::*;
use crate::task::{TaskPriority, WeeklyTask, Weekday};

verus! {

/// The form, holding the task it edits.
pub struct WeeklyTaskEdit<'a> {
    pub weekly_task: &'a mut WeeklyTask,
}

/// The days offered by the weekday pickers, in the order shown.
pub open spec fn spec_weekday_options() -> Seq<Weekday> {
    seq![
        Weekday::Monday,
        Weekday::Tuesday,
        Weekday::Wednesday,
        Weekday::Thursday,
        Weekday::Friday,
        Weekday::Saturday,
        Weekday::Sunday,
    ]
}

/// The days offered by the weekday pickers, Monday first.
pub fn weekday_options() -> (days: Vec<Weekday>)
    ensures
        days@ == spec_weekday_options(),
{
    let days = vec![
        Weekday::Monday,
        Weekday::Tuesday,
        Weekday::Wednesday,
        Weekday::Thursday,
        Weekday::Friday,
        Weekday::Saturday,
        Weekday::Sunday,
    ];
    assert(days@ =~= spec_weekday_options());
    days
}

impl<'a> WeeklyTaskEdit<'a> {
    /// A form over `weekly_task`; whatever the form changes, the task holds
    /// once the form is gone.
    pub fn new(weekly_task: &'a mut WeeklyTask) -> (edit: Self)
        ensures
            *edit.weekly_task == *old(weekly_task),
            *final(weekly_task) == *final(edit.weekly_task),
    {
        Self { weekly_task }
    }

    /// The active box was set or cleared.
    pub fn set_active(&mut self, active: bool)
        ensures
            *final(self).weekly_task == (WeeklyTask { active, ..*old(self).weekly_task }),
            *final(final(self).weekly_task) == *final(old(self).weekly_task),
    {
        self.weekly_task.active = active;
    }

    /// A priority was picked.
    pub fn set_priority(&mut self, priority: TaskPriority)
        ensures
            *final(self).weekly_task == (WeeklyTask { priority, ..*old(self).weekly_task }),
            *final(final(self).weekly_task) == *final(old(self).weekly_task),
    {
        self.weekly_task.priority = priority;
    }

    /// The first and the last weekday were picked.
    pub fn set_duration(&mut self, start_day: Weekday, due_day: Weekday)
        ensures
            *final(self).weekly_task == (WeeklyTask {
                start_day,
                due_day,
                ..*old(self).weekly_task
            }),
            *final(final(self).weekly_task) == *final(old(self).weekly_task),
    {
        self.weekly_task.start_day = start_day;
        self.weekly_task.due_day = due_day;
    }
}

} // verus!
