//! A modal question with Yes and No buttons.

use vstd::prelude::*;

verus! {

/// What the user answered, if anything, this frame.
#[derive(Clone, Copy, Debug, PartialEq, Eq, Structural)]
pub enum ModalResult {
    Yes,
    No,
    NoAnswer,
}

/// The state of the question.
pub struct YesNoModal {
    title: String,
    message: String,
    is_open: bool,
}

impl YesNoModal {
    /// Whether the question is shown.
    pub closed spec fn showing(&self) -> bool {
        self.is_open
    }

    /// The heading of the question.
    pub closed spec fn heading(&self) -> Seq<char> {
        self.title@
    }

    /// The text of the question.
    pub closed spec fn text(&self) -> Seq<char> {
        self.message@
    }

    /// A closed question with no text.
    pub fn new() -> (modal: Self)
        ensures
            !modal.showing(),
            modal.heading() == Seq::<char>::empty(),
            modal.text() == Seq::<char>::empty(),
    {
        Self { title: String::new(), message: String::new(), is_open: false }
    }

    /// Asks the question `message` under the heading `title`.
    pub fn open(&mut self, title: String, message: String)
        ensures
            final(self).showing(),
            final(self).heading() == title@,
            final(self).text() == message@,
    {
        self.is_open = true;
        self.title = title;
        self.message = message;
    }

    /// Whether the question is shown.
    pub fn is_open(&self) -> (r: bool)
        ensures
            r == self.showing(),
    {
        self.is_open
    }

    /// The heading of the question.
    pub fn title(&self) -> (r: &str)
        ensures
            r@ == self.heading(),
    {
        self.title.as_str()
    }

    /// The text of the question.
    pub fn message(&self) -> (r: &str)
        ensures
            r@ == self.text(),
    {
        self.message.as_str()
    }

    /// One frame of the question, given which buttons were clicked: a click
    /// answers and closes it; a closed question answers nothing.
    pub fn show(&mut self, no_clicked: bool, yes_clicked: bool) -> (result: ModalResult)
        ensures
            result == if !old(self).showing() {
                ModalResult::NoAnswer
            } else if yes_clicked {
                ModalResult::Yes
            } else if no_clicked {
                ModalResult::No
            } else {
                ModalResult::NoAnswer
            },
            final(self).showing() == (old(self).showing() && !no_clicked && !yes_clicked),
            final(self).heading() == old(self).heading(),
            final(self).text() == old(self).text(),
    {
        if !self.is_open {
            return ModalResult::NoAnswer;
        }
        let mut result = ModalResult::NoAnswer;
        if no_clicked {
            result = ModalResult::No;
            self.is_open = false;
        }
        if yes_clicked {
            result = ModalResult::Yes;
            self.is_open = false;
        }
        result
    }
}

} // verus!
