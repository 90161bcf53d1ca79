//! The screens of the application and the decisions each of them takes.

use vstd::prelude::*;

pub mod config_page;
pub mod form;
pub mod kanban_page;
pub mod main_page;
pub mod monthly_main_page;
pub mod page;
pub mod transition;

verus! {

/// The screens of the application.
#[derive(Clone, Copy, Debug, PartialEq, Eq, Hash, Structural)]
pub enum Pages {
    Init,
    Main,
    EditTask,
    CreateTask,
    DailyMain,
    EditDailyTask,
    CreateDailyTask,
    WeeklyMain,
    EditWeeklyTask,
    CreateWeeklyTask,
    MonthlyMain,
    EditMonthlyTask,
    CreateMonthlyTask,
    Kanban,
    Graph,
    Timer,
    Config,
}

impl Default for Pages {
    fn default() -> (page: Self)
        ensures
            page == Pages::Init,
    {
        Pages::Init
    }
}

/// A list screen asks for its records when no request is running and it
/// holds none yet.
pub fn should_fetch(requests_idle: bool, loaded: bool) -> (fetch: bool)
    ensures
        fetch == (requests_idle && !loaded),
{
    requests_idle && !loaded
}

} // verus!
