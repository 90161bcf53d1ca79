//! The task list table: one row per task, with an edit button that records
//! which task the user wants to edit.

use vstd::prelude::*;
use crate::message::Message;
use crate::task::{Task, TaskPriority, TaskStatus};

verus! {

/// The state of the task table.
pub struct TaskTable<'a> {
    tasks: &'a [Task],
    clicked: bool,
    clicked_task: Option<Task>,
}

/// A copy of an optional task.
pub fn duplicate_task_option(task: &Option<Task>) -> (r: Option<Task>)
    ensures
        r == *task,
{
    match task {
        Some(t) => Some(t.duplicate()),
        None => None,
    }
}

impl<'a> TaskTable<'a> {
    /// A click is recorded together with the task of a row of the table, and
    /// a recorded task always comes with a click.
    #[verifier::type_invariant]
    spec fn click_pairing(self) -> bool {
        &&& self.clicked == self.clicked_task is Some
        &&& self.clicked_task matches Some(t) ==> self.tasks@.contains(t)
    }

    /// The tasks shown, one per row.
    pub closed spec fn shown(&self) -> Seq<Task> {
        self.tasks@
    }

    /// Whether an edit button has been clicked.
    pub closed spec fn is_clicked(&self) -> bool {
        self.clicked
    }

    /// The task of the row whose edit button was clicked last, if any.
    pub closed spec fn chosen(&self) -> Option<Task> {
        self.clicked_task
    }

    /// A table of `tasks` on which nothing has been clicked yet.
    pub fn new(tasks: &'a [Task]) -> (table: Self)
        ensures
            table.shown() == tasks@,
            !table.is_clicked(),
            table.chosen() is None,
    {
        Self { tasks, clicked: false, clicked_task: None }
    }

    /// The tasks shown, one per row.
    pub fn tasks(&self) -> (tasks: &'a [Task])
        ensures
            tasks@ == self.shown(),
    {
        self.tasks
    }

    /// Whether an edit button has been clicked: exactly when a task has been
    /// recorded.
    pub fn clicked(&self) -> (r: bool)
        ensures
            r == self.is_clicked(),
            r == self.chosen() is Some,
    {
        proof {
            use_type_invariant(self);
        }
        self.clicked
    }

    /// A copy of the task whose edit button was clicked last, if any: there
    /// is one exactly when a button was clicked, and it is one of the rows.
    /// The table keeps it, so a second call gives the same task.
    pub fn clicked_task(&self) -> (r: Option<Task>)
        ensures
            r == self.chosen(),
            r is Some == self.is_clicked(),
            r matches Some(t) ==> self.shown().contains(t),
    {
        proof {
            use_type_invariant(self);
        }
        duplicate_task_option(&self.clicked_task)
    }

    /// The edit button of row `row` was clicked: that row's task is recorded.
    pub fn on_edit_clicked(&mut self, row: usize)
        requires
            row < old(self).shown().len(),
        ensures
            final(self).is_clicked(),
            final(self).chosen() == Some(old(self).shown()[row as int]),
            final(self).shown() == old(self).shown(),
    {
        let task = self.tasks[row].duplicate();
        proof {
            assert(self.tasks@[row as int] == task);
        }
        *self = TaskTable { tasks: self.tasks, clicked: true, clicked_task: Some(task) };
    }
}

/// Whether a task shows as done (ticked) in the table.
pub fn is_done(task: &Task) -> (done: bool)
    ensures
        done == (task.status == TaskStatus::Complete),
{
    match task.status {
        TaskStatus::Complete => true,
        _ => false,
    }
}

/// The text and the color (red, green, blue) in which a priority is shown:
/// red for high, gold for medium, green for low.
pub open spec fn spec_priority_style(priority: TaskPriority) -> (Message, (u8, u8, u8)) {
    match priority {
        TaskPriority::High => (Message::High, (255u8, 60u8, 60u8)),
        TaskPriority::Medium => (Message::Medium, (255u8, 215u8, 0u8)),
        TaskPriority::Low => (Message::Low, (60u8, 255u8, 60u8)),
    }
}

/// The text and the color (red, green, blue) in which a priority is shown.
pub fn priority_style(priority: TaskPriority) -> (style: (Message, (u8, u8, u8)))
    ensures
        style == spec_priority_style(priority),
{
    match priority {
        TaskPriority::High => (Message::High, (255, 60, 60)),
        TaskPriority::Medium => (Message::Medium, (255, 215, 0)),
        TaskPriority::Low => (Message::Low, (60, 255, 60)),
    }
}

/// The icon shown beside a task's progress for each status.
pub open spec fn spec_status_icon(status: TaskStatus) -> Seq<char> {
    match status {
        TaskStatus::Pending => "⏳"@,
        TaskStatus::WorkInProgress => "🏃"@,
        TaskStatus::Complete => "✅"@,
        TaskStatus::Canceled => "🚫"@,
    }
}

/// The icon shown beside a task's progress.
pub fn status_icon(status: TaskStatus) -> (icon: &'static str)
    ensures
        icon@ == spec_status_icon(status),
{
    match status {
        TaskStatus::Pending => "⏳",
        TaskStatus::WorkInProgress => "🏃",
        TaskStatus::Complete => "✅",
        TaskStatus::Canceled => "🚫",
    }
}

} // verus!
