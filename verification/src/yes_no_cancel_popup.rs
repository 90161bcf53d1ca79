//! A modal question with Yes, No and Cancel buttons.

use vstd::prelude::*;

verus! {

/// What the user answered, if anything, this frame.
#[derive(Clone, Copy, Debug, PartialEq, Eq, Structural)]
pub enum PopupResult {
    Yes,
    No,
    Cancel,
    NoAnswer,
}

/// The state of the question.
pub struct YesNoCancelPopup {
    title: String,
    message: String,
    is_open: bool,
}

impl YesNoCancelPopup {
    /// Whether the question is shown.
    pub closed spec fn showing(&self) -> bool {
        self.is_open
    }

    /// The heading of the question.
    pub closed spec fn heading(&self) -> Seq<char> {
        self.title@
    }

    /// The text of the question.
    pub closed spec fn text(&self) -> Seq<char> {
        self.message@
    }

    /// A closed question with no text.
    pub fn new() -> (popup: Self)
        ensures
            !popup.showing(),
            popup.heading() == Seq::<char>::empty(),
            popup.text() == Seq::<char>::empty(),
    {
        Self { title: String::new(), message: String::new(), is_open: false }
    }

    /// Asks the question `message` under the heading `title`.
    pub fn open(&mut self, title: String, message: String)
        ensures
            final(self).showing(),
            final(self).heading() == title@,
            final(self).text() == message@,
    {
        self.is_open = true;
        self.title = title;
        self.message = message;
    }

    /// Whether the question is shown.
    pub fn is_open(&self) -> (r: bool)
        ensures
            r == self.showing(),
    {
        self.is_open
    }

    /// The heading of the question.
    pub fn title(&self) -> (r: &str)
        ensures
            r@ == self.heading(),
    {
        self.title.as_str()
    }

    /// The text of the question.
    pub fn message(&self) -> (r: &str)
        ensures
            r@ == self.text(),
    {
        self.message.as_str()
    }

    /// One frame of the question, given which buttons were clicked and
    /// whether the user dismissed it (a click beside it, or Escape): a button
    /// answers and closes it; dismissing closes it without an answer.
    pub fn show(&mut self, cancel_clicked: bool, no_clicked: bool, yes_clicked: bool, dismissed: bool) -> (result: PopupResult)
        ensures
            result == if !old(self).showing() {
                PopupResult::NoAnswer
            } else if yes_clicked {
                PopupResult::Yes
            } else if no_clicked {
                PopupResult::No
            } else if cancel_clicked {
                PopupResult::Cancel
            } else {
                PopupResult::NoAnswer
            },
            final(self).showing() == (old(self).showing() && !cancel_clicked && !no_clicked
                && !yes_clicked && !dismissed),
            final(self).heading() == old(self).heading(),
            final(self).text() == old(self).text(),
    {
        if !self.is_open {
            return PopupResult::NoAnswer;
        }
        let mut result = PopupResult::NoAnswer;
        if cancel_clicked {
            result = PopupResult::Cancel;
            self.is_open = false;
        }
        if no_clicked {
            result = PopupResult::No;
            self.is_open = false;
        }
        if yes_clicked {
            result = PopupResult::Yes;
            self.is_open = false;
        }
        if dismissed {
            self.is_open = false;
        }
        result
    }
}

} // verus!
