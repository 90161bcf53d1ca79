//! The table of weekly tasks: one row per task, with an edit button; the
//! click is handed out once and then forgotten.

use vstd::prelude::*;
use crate::message::Message;
use crate::task::{WeeklyTask, Weekday};

verus! {

/// The state of the weekly task table.
pub struct WeeklyTaskTable {
    pub clicked: bool,
    pub clicked_task: Option<WeeklyTask>,
}

impl WeeklyTaskTable {
    /// A table on which nothing has been clicked yet.
    pub fn new() -> (table: Self)
        ensures
            !table.clicked,
            table.clicked_task is None,
    {
        Self { clicked: false, clicked_task: None }
    }

    /// Whether an edit button has been clicked since the last call; the
    /// click is forgotten.
    pub fn clicked(&mut self) -> (r: bool)
        ensures
            r == old(self).clicked,
            !final(self).clicked,
            final(self).clicked_task == old(self).clicked_task,
    {
        let ret = self.clicked;
        self.clicked = false;
        ret
    }

    /// The task whose edit button was clicked, if any; it is forgotten.
    pub fn clicked_task(&mut self) -> (r: Option<WeeklyTask>)
        ensures
            r == old(self).clicked_task,
            final(self).clicked_task is None,
            final(self).clicked == old(self).clicked,
    {
        let ret = match &self.clicked_task {
            Some(t) => Some(t.duplicate()),
            None => None,
        };
        self.clicked_task = None;
        ret
    }

    /// The edit button of `task`'s row was clicked.
    pub fn on_edit_clicked(&mut self, task: &WeeklyTask)
        ensures
            final(self).clicked,
            final(self).clicked_task == Some(*task),
    {
        self.clicked = true;
        self.clicked_task = Some(task.duplicate());
    }
}

/// The name of a weekday.
pub open spec fn spec_weekday_message(weekday: Weekday) -> Message {
    match weekday {
        Weekday::Monday => Message::Monday,
        Weekday::Tuesday => Message::Tuesday,
        Weekday::Wednesday => Message::Wednesday,
        Weekday::Thursday => Message::Thursday,
        Weekday::Friday => Message::Friday,
        Weekday::Saturday => Message::Saturday,
        Weekday::Sunday => Message::Sunday,
    }
}

/// The name of a weekday.
pub fn weekday_to_string(weekday: Weekday) -> (name: Message)
    ensures
        name == spec_weekday_message(weekday),
{
    match weekday {
        Weekday::Monday => Message::Monday,
        Weekday::Tuesday => Message::Tuesday,
        Weekday::Wednesday => Message::Wednesday,
        Weekday::Thursday => Message::Thursday,
        Weekday::Friday => Message::Friday,
        Weekday::Saturday => Message::Saturday,
        Weekday::Sunday => Message::Sunday,
    }
}

/// The duration column of a row: the names of the first and of the last day,
/// shown as "first ~ last".
pub fn duration(task: &WeeklyTask) -> (days: (Message, Message))
    ensures
        days == (spec_weekday_message(task.start_day), spec_weekday_message(task.due_day)),
{
    (weekday_to_string(task.start_day), weekday_to_string(task.due_day))
}

} // verus!
