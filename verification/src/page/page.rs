//! The screens of the first, single-window layout of the application.

use vstd::prelude::*;

verus! {

/// The screens of the first layout.
#[derive(Clone, Copy, Debug, PartialEq, Eq, Structural)]
pub enum Pages {
    /// The task list, shown at start.
    Main,
    EditTask,
    CreateTask,
    Graph,
    /// The stop watch, while working on a task.
    Timer,
}

impl Default for Pages {
    fn default() -> (page: Self)
        ensures
            page == Pages::Main,
    {
        Pages::Main
    }
}

} // verus!
