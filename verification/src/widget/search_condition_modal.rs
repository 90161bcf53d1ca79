//! The modal in which the user sets up a task search: a text pattern and
//! the filter, search and order options.

use vstd::prelude::*;
use crate::flags::{TaskFilterFlags, TaskOrderFlags, TaskSearchFlags};

verus! {

/// What the modal answered, if anything, this frame.
#[derive(Clone, Debug, PartialEq, Eq)]
pub enum ModalResult {
    /// Search for the pattern with these options.
    Search(String, TaskFilterFlags, TaskOrderFlags, TaskSearchFlags),
    Cancel,
    NoAnswer,
}

/// The state of the modal.
pub struct SearchConditionModal {
    is_open: bool,
    pattern: String,
    filter_flags: TaskFilterFlags,
    search_flags: TaskSearchFlags,
    order_flags: TaskOrderFlags,
}

impl SearchConditionModal {
    /// Whether the modal is shown.
    pub closed spec fn showing(&self) -> bool {
        self.is_open
    }

    /// The search pattern typed so far.
    pub closed spec fn typed(&self) -> Seq<char> {
        self.pattern@
    }

    /// The filter options chosen.
    pub closed spec fn filter(&self) -> TaskFilterFlags {
        self.filter_flags
    }

    /// The search options chosen.
    pub closed spec fn search(&self) -> TaskSearchFlags {
        self.search_flags
    }

    /// The order options chosen.
    pub closed spec fn order(&self) -> TaskOrderFlags {
        self.order_flags
    }

    /// A closed modal with an empty pattern and no option chosen.
    pub fn new() -> (modal: Self)
        ensures
            !modal.showing(),
            modal.typed() == Seq::<char>::empty(),
            modal.filter()@ == 0,
            modal.search()@ == 0,
            modal.order()@ == 0,
    {
        Self {
            is_open: false,
            pattern: String::new(),
            filter_flags: TaskFilterFlags::default(),
            search_flags: TaskSearchFlags::default(),
            order_flags: TaskOrderFlags::default(),
        }
    }

    /// Opens the modal with an empty pattern; the options stay as they were.
    pub fn open(&mut self)
        ensures
            final(self).showing(),
            final(self).typed() == Seq::<char>::empty(),
            final(self).filter() == old(self).filter(),
            final(self).search() == old(self).search(),
            final(self).order() == old(self).order(),
    {
        self.pattern = String::new();
        self.is_open = true;
    }

    /// Whether the modal is shown.
    pub fn is_open(&self) -> (r: bool)
        ensures
            r == self.showing(),
    {
        self.is_open
    }

    /// The pattern typed so far.
    pub fn pattern(&self) -> (r: &str)
        ensures
            r@ == self.typed(),
    {
        self.pattern.as_str()
    }

    /// The user edited the pattern.
    pub fn set_pattern(&mut self, pattern: String)
        ensures
            final(self).typed() == pattern@,
            final(self).showing() == old(self).showing(),
            final(self).filter() == old(self).filter(),
            final(self).search() == old(self).search(),
            final(self).order() == old(self).order(),
    {
        self.pattern = pattern;
    }

    /// The filter options chosen.
    pub fn filter_flags(&self) -> (r: TaskFilterFlags)
        ensures
            r == self.filter(),
    {
        self.filter_flags
    }

    /// The search options chosen.
    pub fn search_flags(&self) -> (r: TaskSearchFlags)
        ensures
            r == self.search(),
    {
        self.search_flags
    }

    /// The order options chosen.
    pub fn order_flags(&self) -> (r: TaskOrderFlags)
        ensures
            r == self.order(),
    {
        self.order_flags
    }

    /// The check box of a filter option was clicked.
    pub fn toggle_filter(&mut self, flag: TaskFilterFlags)
        ensures
            final(self).filter()@ == old(self).filter()@ ^ flag@,
            final(self).showing() == old(self).showing(),
            final(self).typed() == old(self).typed(),
            final(self).search() == old(self).search(),
            final(self).order() == old(self).order(),
    {
        self.filter_flags.toggle(flag);
    }

    /// The check box of a search option was clicked.
    pub fn toggle_search(&mut self, flag: TaskSearchFlags)
        ensures
            final(self).search()@ == old(self).search()@ ^ flag@,
            final(self).showing() == old(self).showing(),
            final(self).typed() == old(self).typed(),
            final(self).filter() == old(self).filter(),
            final(self).order() == old(self).order(),
    {
        self.search_flags.toggle(flag);
    }

    /// The check box of an order option was clicked.
    pub fn toggle_order(&mut self, flag: TaskOrderFlags)
        ensures
            final(self).order()@ == old(self).order()@ ^ flag@,
            final(self).showing() == old(self).showing(),
            final(self).typed() == old(self).typed(),
            final(self).filter() == old(self).filter(),
            final(self).search() == old(self).search(),
    {
        self.order_flags.toggle(flag);
    }

    /// One frame of the modal, given which buttons were clicked: Search hands
    /// out the pattern and the options, Cancel hands out nothing; either
    /// closes the modal. A closed modal answers nothing.
    pub fn show(&mut self, search_clicked: bool, cancel_clicked: bool) -> (result: ModalResult)
        ensures
            !old(self).showing() ==> result is NoAnswer,
            old(self).showing() && cancel_clicked ==> result is Cancel,
            old(self).showing() && !cancel_clicked && !search_clicked ==> result is NoAnswer,
            old(self).showing() && !cancel_clicked && search_clicked ==> (result matches ModalResult::Search(p, f, o, s) && p@ == old(self).typed() && f == old(self).filter() && o == old(self).order() && s == old(self).search()),
            final(self).showing() == (old(self).showing() && !search_clicked && !cancel_clicked),
            final(self).typed() == old(self).typed(),
            final(self).filter() == old(self).filter(),
            final(self).search() == old(self).search(),
            final(self).order() == old(self).order(),
    {
        if !self.is_open {
            return ModalResult::NoAnswer;
        }
        let mut result = ModalResult::NoAnswer;
        if search_clicked {
            result = ModalResult::Search(
                self.pattern.clone(),
                self.filter_flags,
                self.order_flags,
                self.search_flags,
            );
            self.is_open = false;
        }
        if cancel_clicked {
            result = ModalResult::Cancel;
            self.is_open = false;
        }
        result
    }
}

} // verus!
