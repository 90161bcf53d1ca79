//! The task records that the screens show and edit.

use vstd::prelude::*;

verus! {

/// How urgent a task is.
#[derive(Clone, Copy, Debug, PartialEq, Eq, Hash, Structural)]
pub enum TaskPriority {
    High,
    Medium,
    Low,
}

/// Where a task stands in its life cycle.
#[derive(Clone, Copy, Debug, PartialEq, Eq, Hash, Structural)]
pub enum TaskStatus {
    Pending,
    WorkInProgress,
    Complete,
    Canceled,
}

/// A day of the week, for tasks that repeat every week.
#[derive(Clone, Copy, Debug, PartialEq, Eq, Hash, Structural)]
pub enum Weekday {
    Monday,
    Tuesday,
    Wednesday,
    Thursday,
    Friday,
    Saturday,
    Sunday,
}

/// A one-off task.
#[derive(Clone, Debug)]
pub struct Task {
    pub id: i32,
    pub project: String,
    pub title: String,
    pub detail: String,
    pub priority: TaskPriority,
    pub status: TaskStatus,
}

/// A task that is planned again every day.
#[derive(Clone, Debug)]
pub struct DailyTask {
    pub id: i32,
    pub active: bool,
    pub project: String,
    pub title: String,
    pub detail: String,
    pub priority: TaskPriority,
}

/// A task that is planned again every week, from one weekday to another.
#[derive(Clone, Debug)]
pub struct WeeklyTask {
    pub id: i32,
    pub active: bool,
    pub project: String,
    pub title: String,
    pub detail: String,
    pub priority: TaskPriority,
    pub start_day: Weekday,
    pub due_day: Weekday,
}

/// A task that is planned again every month, from one day of the month to another.
#[derive(Clone, Debug)]
pub struct MonthlyTask {
    pub id: i32,
    pub active: bool,
    pub project: String,
    pub title: String,
    pub detail: String,
    pub priority: TaskPriority,
    pub start_day: i16,
    pub due_day: i16,
}

/// A record can be saved once it names both its project and its title.
pub open spec fn names_filled(project: Seq<char>, title: Seq<char>) -> bool {
    project.len() > 0 && title.len() > 0
}

/// Index of a priority in the priority picker, which lists Low, Medium, High.
pub open spec fn spec_priority_index(priority: TaskPriority) -> int {
    match priority {
        TaskPriority::Low => 0,
        TaskPriority::Medium => 1,
        TaskPriority::High => 2,
    }
}

/// Index of a priority in the priority picker (Low, Medium, High).
pub fn priority_index(priority: TaskPriority) -> (idx: usize)
    ensures
        idx == spec_priority_index(priority),
{
    match priority {
        TaskPriority::Low => 0,
        TaskPriority::Medium => 1,
        TaskPriority::High => 2,
    }
}

/// The priority at a position of the priority picker.
pub fn priority_at(idx: usize) -> (priority: Option<TaskPriority>)
    ensures
        idx < 3 <==> priority is Some,
        priority matches Some(p) ==> spec_priority_index(p) == idx,
{
    if idx == 0 {
        Some(TaskPriority::Low)
    } else if idx == 1 {
        Some(TaskPriority::Medium)
    } else if idx == 2 {
        Some(TaskPriority::High)
    } else {
        None
    }
}

fn copy_string(s: &String) -> (r: String)
    ensures
        r == *s,
{
    s.clone()
}

impl Task {
    /// A field-by-field copy.
    pub fn duplicate(&self) -> (r: Task)
        ensures
            r == *self,
    {
        Task {
            id: self.id,
            project: copy_string(&self.project),
            title: copy_string(&self.title),
            detail: copy_string(&self.detail),
            priority: self.priority,
            status: self.status,
        }
    }

    /// Whether the task names its project and its title.
    pub fn is_saveable(&self) -> (r: bool)
        ensures
            r == names_filled(self.project@, self.title@),
    {
        !self.project.as_str().is_empty() && !self.title.as_str().is_empty()
    }
}

impl DailyTask {
    /// A field-by-field copy.
    pub fn duplicate(&self) -> (r: DailyTask)
        ensures
            r == *self,
    {
        DailyTask {
            id: self.id,
            active: self.active,
            project: copy_string(&self.project),
            title: copy_string(&self.title),
            detail: copy_string(&self.detail),
            priority: self.priority,
        }
    }

    /// Whether the task can be saved: a daily task needs only its title
    /// (its project is optional).
    pub fn is_saveable(&self) -> (r: bool)
        ensures
            r == (self.title@.len() > 0),
    {
        !self.title.as_str().is_empty()
    }
}

impl WeeklyTask {
    /// A field-by-field copy.
    pub fn duplicate(&self) -> (r: WeeklyTask)
        ensures
            r == *self,
    {
        WeeklyTask {
            id: self.id,
            active: self.active,
            project: copy_string(&self.project),
            title: copy_string(&self.title),
            detail: copy_string(&self.detail),
            priority: self.priority,
            start_day: self.start_day,
            due_day: self.due_day,
        }
    }

    /// Whether the task can be saved: a weekly task needs only its title
    /// (its project is optional).
    pub fn is_saveable(&self) -> (r: bool)
        ensures
            r == (self.title@.len() > 0),
    {
        !self.title.as_str().is_empty()
    }
}

impl MonthlyTask {
    /// A field-by-field copy.
    pub fn duplicate(&self) -> (r: MonthlyTask)
        ensures
            r == *self,
    {
        MonthlyTask {
            id: self.id,
            active: self.active,
            project: copy_string(&self.project),
            title: copy_string(&self.title),
            detail: copy_string(&self.detail),
            priority: self.priority,
            start_day: self.start_day,
            due_day: self.due_day,
        }
    }

    /// Whether the task can be saved: a monthly task needs only its title
    /// (its project is optional).
    pub fn is_saveable(&self) -> (r: bool)
        ensures
            r == (self.title@.len() > 0),
    {
        !self.title.as_str().is_empty()
    }
}

} // verus!
