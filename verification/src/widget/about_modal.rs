//! The "about" box.

use vstd::prelude::*;

verus! {

/// The state of the about box.
pub struct AboutModal {
    is_open: bool,
}

impl AboutModal {
    /// Whether the box is shown.
    pub closed spec fn showing(&self) -> bool {
        self.is_open
    }

    /// A closed box.
    pub fn new() -> (modal: Self)
        ensures
            !modal.showing(),
    {
        Self { is_open: false }
    }

    /// Opens the box.
    pub fn open(&mut self)
        ensures
            final(self).showing(),
    {
        self.is_open = true;
    }

    /// One frame of the box: whether it is drawn; its close button closes it.
    pub fn show(&mut self, close_clicked: bool) -> (drawn: bool)
        ensures
            drawn == old(self).showing(),
            final(self).showing() == (old(self).showing() && !close_clicked),
    {
        if !self.is_open {
            return false;
        }
        if close_clicked {
            self.is_open = false;
        }
        true
    }
}

} // verus!
