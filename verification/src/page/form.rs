//! The decisions shared by the screens that create or edit one record: what
//! the Close question's answer and the Save button lead to.

use vstd::prelude::*;
use crate::message::Message;
use crate::page::Pages;
use crate::task::{names_filled, Task};
use crate::widget::yes_no_modal::ModalResult;
use crate::yes_no_cancel_popup::PopupResult;

verus! {

/// What a form screen does after an answer.
#[derive(Clone, Copy, Debug, PartialEq, Eq, Structural)]
pub enum FormAction {
    /// Save the record, reset the form, drop the cached list and go to the
    /// given screen.
    SaveAndLeave(Pages),
    /// Save the record, drop the cached list and go to the given screen;
    /// the form keeps what it holds.
    SaveAndGo(Pages),
    /// Save the record and stay.
    Save,
    /// Do not save; warn under the first text with the second.
    Warn(Message, Message),
    /// Reset the form without saving, drop the cached list and go to the
    /// given screen.
    DiscardAndLeave(Pages),
    /// Nothing.
    Stay,
}

/// The warning text for a task that cannot be saved: the missing project,
/// else the missing title.
pub open spec fn spec_name_warning(project: Seq<char>) -> Message {
    if project.len() == 0 {
        Message::ProjectEmpty
    } else {
        Message::TitleEmpty
    }
}

/// The warning text for a task that cannot be saved.
pub fn name_warning(task: &Task) -> (text: Message)
    ensures
        text == spec_name_warning(task.project@),
{
    if task.project.as_str().is_empty() {
        Message::ProjectEmpty
    } else {
        Message::TitleEmpty
    }
}

/// What the answer to "save before closing?" leads to.
pub open spec fn spec_on_close_answer(
    answer: PopupResult,
    saveable: bool,
    warning: (Message, Message),
    back: Pages,
) -> FormAction {
    match answer {
        PopupResult::Yes => if saveable {
            FormAction::SaveAndLeave(back)
        } else {
            FormAction::Warn(warning.0, warning.1)
        },
        PopupResult::No => FormAction::DiscardAndLeave(back),
        _ => FormAction::Stay,
    }
}

/// What the answer to "save?" leads to.
pub open spec fn spec_on_save_answer(
    answer: ModalResult,
    saveable: bool,
    warning: (Message, Message),
    leave_to: Option<Pages>,
) -> FormAction {
    match answer {
        ModalResult::Yes => if !saveable {
            FormAction::Warn(warning.0, warning.1)
        } else {
            match leave_to {
                Some(p) => FormAction::SaveAndGo(p),
                None => FormAction::Save,
            }
        },
        _ => FormAction::Stay,
    }
}

/// The answer to "save before closing?": Yes saves and leaves to `back`, or
/// warns with `warning` if the record cannot be saved; No leaves to `back`
/// without saving; Cancel or no answer stays.
pub fn on_close_answer(
    answer: PopupResult,
    saveable: bool,
    warning: (Message, Message),
    back: Pages,
) -> (action: FormAction)
    ensures
        action == spec_on_close_answer(answer, saveable, warning, back),
{
    match answer {
        PopupResult::Yes => if saveable {
            FormAction::SaveAndLeave(back)
        } else {
            FormAction::Warn(warning.0, warning.1)
        },
        PopupResult::No => FormAction::DiscardAndLeave(back),
        _ => FormAction::Stay,
    }
}

/// The answer to "save?": Yes saves (and goes to `leave_to`, if given,
/// keeping the form as it is), or
/// warns with `warning` if the record cannot be saved; anything else stays.
pub fn on_save_answer(
    answer: ModalResult,
    saveable: bool,
    warning: (Message, Message),
    leave_to: Option<Pages>,
) -> (action: FormAction)
    ensures
        action == spec_on_save_answer(answer, saveable, warning, leave_to),
{
    match answer {
        ModalResult::Yes => if !saveable {
            FormAction::Warn(warning.0, warning.1)
        } else {
            match leave_to {
                Some(p) => FormAction::SaveAndGo(p),
                None => FormAction::Save,
            }
        },
        _ => FormAction::Stay,
    }
}

/// A record that does not name both its project and its title is never
/// saved, whatever the answer: the form warns or stays instead.
pub proof fn lemma_unsaveable_never_saved(
    project: Seq<char>,
    title: Seq<char>,
    close_answer: PopupResult,
    save_answer: ModalResult,
    warning: (Message, Message),
    back: Pages,
    leave_to: Option<Pages>,
)
    requires
        !names_filled(project, title),
    ensures
        !(spec_on_close_answer(close_answer, names_filled(project, title), warning, back) is SaveAndLeave),
        !(spec_on_save_answer(save_answer, names_filled(project, title), warning, leave_to) is SaveAndLeave),
        !(spec_on_save_answer(save_answer, names_filled(project, title), warning, leave_to) is SaveAndGo),
        !(spec_on_save_answer(save_answer, names_filled(project, title), warning, leave_to) is Save),
{
}

/// The screen a form returns to: the screen it was entered from, except the
/// settings screen, which is only passed through.
#[derive(Clone, Copy, Debug, PartialEq, Eq, Structural)]
pub struct FormPage {
    pub last_page: Pages,
}

impl FormPage {
    /// A form that returns to `home` until it is entered from elsewhere.
    pub fn new(home: Pages) -> (page: Self)
        ensures
            page.last_page == home,
    {
        FormPage { last_page: home }
    }

    /// Entering the form from `from`.
    pub fn on_entry(&mut self, from: Pages)
        ensures
            final(self).last_page == if from != Pages::Config {
                from
            } else {
                old(self).last_page
            },
    {
        if from != Pages::Config {
            self.last_page = from;
        }
    }
}

/// A new task needs an id from the store while it has none (id 0).
pub fn needs_new_id(task: &Task) -> (needs: bool)
    ensures
        needs == (task.id == 0),
{
    task.id == 0
}

/// What each answer to the Close question leads to, for any record: No
/// never saves, it drops the edits and leaves to `back`; Yes saves and
/// leaves to `back` when the record can be saved, and otherwise only warns
/// and stays; Cancel or no answer changes nothing.
pub proof fn lemma_close_answers(saveable: bool, warning: (Message, Message), back: Pages)
    ensures
        spec_on_close_answer(PopupResult::No, saveable, warning, back) == FormAction::DiscardAndLeave(
            back,
        ),
        saveable ==> spec_on_close_answer(PopupResult::Yes, saveable, warning, back)
            == FormAction::SaveAndLeave(back),
        !saveable ==> spec_on_close_answer(PopupResult::Yes, saveable, warning, back)
            == FormAction::Warn(warning.0, warning.1),
        spec_on_close_answer(PopupResult::Cancel, saveable, warning, back) == FormAction::Stay,
        spec_on_close_answer(PopupResult::NoAnswer, saveable, warning, back) == FormAction::Stay,
{
}

/// What each answer to the Save question leads to, for any record: only Yes
/// saves, and only a record that can be saved (going on to `leave_to` with
/// the form kept, if given, else staying); Yes on a record that cannot be
/// saved only warns; No or no answer changes nothing.
pub proof fn lemma_save_answers(saveable: bool, warning: (Message, Message), leave_to: Option<Pages>)
    ensures
        spec_on_save_answer(ModalResult::No, saveable, warning, leave_to) == FormAction::Stay,
        spec_on_save_answer(ModalResult::NoAnswer, saveable, warning, leave_to) == FormAction::Stay,
        !saveable ==> spec_on_save_answer(ModalResult::Yes, saveable, warning, leave_to)
            == FormAction::Warn(warning.0, warning.1),
        saveable ==> spec_on_save_answer(ModalResult::Yes, saveable, warning, leave_to) == match leave_to {
            Some(p) => FormAction::SaveAndGo(p),
            None => FormAction::Save,
        },
{
}

} // verus!
