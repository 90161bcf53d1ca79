//! A modal warning with an OK button.

use vstd::prelude::*;

verus! {

/// The state of the warning.
pub struct WarningModal {
    title: String,
    message: String,
    is_open: bool,
}

impl WarningModal {
    /// Whether the warning has been raised.
    pub closed spec fn showing(&self) -> bool {
        self.is_open
    }

    /// The heading of the warning.
    pub closed spec fn heading(&self) -> Seq<char> {
        self.title@
    }

    /// The text of the warning.
    pub closed spec fn text(&self) -> Seq<char> {
        self.message@
    }

    /// No warning yet.
    pub fn new() -> (modal: Self)
        ensures
            !modal.showing(),
            modal.heading() == Seq::<char>::empty(),
            modal.text() == Seq::<char>::empty(),
    {
        Self { title: String::new(), message: String::new(), is_open: false }
    }

    /// Raises the warning `message` under the heading `title`.
    pub fn open(&mut self, title: String, message: String)
        ensures
            final(self).showing(),
            final(self).heading() == title@,
            final(self).text() == message@,
    {
        self.is_open = true;
        self.title = title;
        self.message = message;
    }

    /// Whether the warning is drawn this frame: once raised, it is drawn
    /// until the window that shows it is closed by its OK button.
    pub fn is_open(&self) -> (r: bool)
        ensures
            r == self.showing(),
    {
        self.is_open
    }

    /// The heading of the warning.
    pub fn title(&self) -> (r: &str)
        ensures
            r@ == self.heading(),
    {
        self.title.as_str()
    }

    /// The text of the warning.
    pub fn message(&self) -> (r: &str)
        ensures
            r@ == self.text(),
    {
        self.message.as_str()
    }
}

} // verus!
