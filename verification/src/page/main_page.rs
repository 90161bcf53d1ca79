//! The main task list: what its bottom buttons and its search bar lead to.

use vstd::prelude::*;
use crate::flags::{TaskFilterFlags, TaskOrderFlags, TaskSearchFlags};
use crate::page::Pages;
use crate::widget::search_condition_modal::ModalResult;

verus! {

/// Action requested by one of the bottom panel buttons.
#[derive(Clone, Copy, Debug, PartialEq, Eq, Structural)]
pub enum BottomAction {
    NoAction,
    Graph,
    Kanban,
    CreateTask,
    EmailReport,
    ExportMarkdown,
}

/// A request the main screen sends to the task store.
#[derive(Clone, Copy, Debug, PartialEq, Eq, Structural)]
pub enum MainRequest {
    Nothing,
    /// The numbers for the graph.
    PlotData,
    /// Mail the daily report of the listed tasks.
    MailDaily,
    /// Ask where to export the listed tasks as markdown, then export them.
    ExportMarkdown,
}

/// Only one side of the bottom panel can be clicked in a frame: whichever
/// side fired wins.
pub fn resolve_bottom_action(left: BottomAction, right: BottomAction) -> (action: BottomAction)
    ensures
        action == if left == BottomAction::NoAction {
            right
        } else {
            left
        },
{
    match left {
        BottomAction::NoAction => right,
        clicked => clicked,
    }
}

/// What a bottom button leads to: the screen to go to, if any, and the
/// request to send. The report is mailed only when the task list is loaded.
pub fn apply_bottom_action(action: BottomAction, tasks_loaded: bool) -> (effect: (Option<Pages>, MainRequest))
    ensures
        effect == match action {
            BottomAction::NoAction => (None, MainRequest::Nothing),
            BottomAction::Graph => (Some(Pages::Graph), MainRequest::PlotData),
            BottomAction::Kanban => (Some(Pages::Kanban), MainRequest::Nothing),
            BottomAction::CreateTask => (Some(Pages::CreateTask), MainRequest::Nothing),
            BottomAction::EmailReport => (
                None,
                if tasks_loaded {
                    MainRequest::MailDaily
                } else {
                    MainRequest::Nothing
                },
            ),
            BottomAction::ExportMarkdown => (None, MainRequest::ExportMarkdown),
        },
{
    match action {
        BottomAction::NoAction => (None, MainRequest::Nothing),
        BottomAction::Graph => (Some(Pages::Graph), MainRequest::PlotData),
        BottomAction::Kanban => (Some(Pages::Kanban), MainRequest::Nothing),
        BottomAction::CreateTask => (Some(Pages::CreateTask), MainRequest::Nothing),
        BottomAction::EmailReport => (
            None,
            if tasks_loaded {
                MainRequest::MailDaily
            } else {
                MainRequest::Nothing
            },
        ),
        BottomAction::ExportMarkdown => (None, MainRequest::ExportMarkdown),
    }
}

/// Action requested from the search control bar: the reset button, or
/// whatever the search modal answered.
pub enum SearchBarAction {
    Reset,
    Modal(ModalResult),
}

/// How the task list is fetched again.
pub enum ListRequest {
    Nothing,
    /// Every active task, in the default order.
    FetchAll,
    /// The tasks matching a search.
    Search(String, TaskSearchFlags, TaskFilterFlags, TaskOrderFlags),
}

/// What the search bar leads to: a reset fetches the whole list again, a
/// search from the modal runs that search, anything else nothing.
pub fn apply_search_bar_action(action: SearchBarAction) -> (request: ListRequest)
    ensures
        match action {
            SearchBarAction::Reset => request is FetchAll,
            SearchBarAction::Modal(ModalResult::Search(pattern, filter, order, search)) => (
            request matches ListRequest::Search(p, s, f, o) && p == pattern && s == search && f
                == filter && o == order),
            SearchBarAction::Modal(_) => request is Nothing,
        },
{
    match action {
        SearchBarAction::Reset => ListRequest::FetchAll,
        SearchBarAction::Modal(ModalResult::Search(pattern, filter, order, search)) => {
            ListRequest::Search(pattern, search, filter, order)
        },
        SearchBarAction::Modal(_) => ListRequest::Nothing,
    }
}

} // verus!
