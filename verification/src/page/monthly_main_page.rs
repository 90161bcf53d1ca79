//! The list of monthly tasks: its color-scheme button, which steps through
//! the schemes in turn, and its "only active" switch.

use vstd::prelude::*;
use crate::config::{color_schemes, spec_color_schemes, ColorScheme};

verus! {

/// The number of color schemes the scheme button steps through.
pub const COLOR_SCHEME_COUNT: usize = 7;

/// The state of the monthly list screen.
pub struct MonthlyMainPage {
    color_scheme_index: usize,
    show_only_active: bool,
}

impl MonthlyMainPage {
    /// The scheme button always points at one of the schemes.
    #[verifier::type_invariant]
    spec fn scheme_in_range(self) -> bool {
        self.color_scheme_index < COLOR_SCHEME_COUNT
    }

    /// The position of the scheme the button applies next.
    pub closed spec fn scheme_index(&self) -> int {
        self.color_scheme_index as int
    }

    /// Whether only active tasks are listed.
    pub closed spec fn only_active(&self) -> bool {
        self.show_only_active
    }

    /// The button starts at the first scheme; only active tasks are listed.
    pub fn new() -> (page: Self)
        ensures
            page.scheme_index() == 0,
            page.only_active(),
    {
        MonthlyMainPage { color_scheme_index: 0, show_only_active: true }
    }

    /// The scheme button was clicked: the scheme to apply, and the button
    /// moves on to the next one, after the last back to the first.
    pub fn change_color_scheme(&mut self) -> (scheme: ColorScheme)
        ensures
            0 <= old(self).scheme_index() < COLOR_SCHEME_COUNT,
            scheme == spec_color_schemes()[old(self).scheme_index()],
            final(self).scheme_index() == (old(self).scheme_index() + 1) % (
            COLOR_SCHEME_COUNT as int),
            final(self).only_active() == old(self).only_active(),
    {
        proof {
            use_type_invariant(&*self);
        }
        let schemes = color_schemes();
        let scheme = schemes[self.color_scheme_index];
        self.color_scheme_index = (self.color_scheme_index + 1) % COLOR_SCHEME_COUNT;
        scheme
    }

    /// Whether only active tasks are listed.
    pub fn show_only_active(&self) -> (r: bool)
        ensures
            r == self.only_active(),
    {
        self.show_only_active
    }

    /// The "only active" box was set or cleared; the result says whether it
    /// changed, so that the list is fetched again.
    pub fn set_show_only_active(&mut self, only_active: bool) -> (changed: bool)
        ensures
            changed == (only_active != old(self).only_active()),
            final(self).only_active() == only_active,
            final(self).scheme_index() == old(self).scheme_index(),
    {
        proof {
            use_type_invariant(&*self);
        }
        let changed = self.show_only_active != only_active;
        self.show_only_active = only_active;
        changed
    }
}

/// Seven clicks of the scheme button bring it back to where it started, each
/// scheme applied once on the way.
pub proof fn lemma_scheme_cycle(start: int)
    requires
        0 <= start < COLOR_SCHEME_COUNT,
    ensures
        forall|k1: int, k2: int|
            0 <= k1 < k2 < COLOR_SCHEME_COUNT ==> #[trigger] ((start + k1) % 7) != #[trigger] ((
            start + k2) % 7),
        (start + 7) % 7 == start,
{
}

} // verus!
