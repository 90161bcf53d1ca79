//! The frame loop's decisions: which screen's entry and exit handlers run,
//! which background requests are kept, and when the recurring tasks are
//! synchronized again.

use vstd::prelude::*;
use crate::page::Pages;

verus! {

/// The screen shown and the screen shown the frame before.
#[derive(Clone, Copy, Debug, PartialEq, Eq, Structural)]
pub struct PageFlow {
    pub next_page: Pages,
    pub last_page: Pages,
}

impl PageFlow {
    /// The application starts on the main screen, coming from nowhere.
    pub fn new() -> (flow: Self)
        ensures
            flow.next_page == Pages::Main,
            flow.last_page == Pages::Init,
    {
        PageFlow { next_page: Pages::Main, last_page: Pages::Init }
    }

    /// Start of a frame: the screen to run the entry handler of, if the
    /// screen changed; the change is then taken as seen.
    pub fn enter(&mut self) -> (entered: Option<Pages>)
        ensures
            entered == if old(self).next_page != old(self).last_page {
                Some(old(self).next_page)
            } else {
                None
            },
            final(self).next_page == old(self).next_page,
            final(self).last_page == old(self).next_page,
    {
        if self.next_page != self.last_page {
            let page = self.next_page;
            self.last_page = self.next_page;
            Some(page)
        } else {
            None
        }
    }

    /// End of a frame: the screen to run the exit handler of, if the screen
    /// shown asked for another one.
    pub fn leaving(&self) -> (left: Option<Pages>)
        ensures
            left == spec_leaving(*self),
    {
        if self.next_page != self.last_page {
            Some(self.last_page)
        } else {
            None
        }
    }
}

/// The screen whose exit handler runs at the end of a frame, if any.
pub open spec fn spec_leaving(flow: PageFlow) -> Option<Pages> {
    if flow.next_page != flow.last_page {
        Some(flow.last_page)
    } else {
        None
    }
}

/// Entering a screen settles the change: unless the screen asks for another
/// one during the frame, no exit handler runs, and the next frame runs no
/// entry handler.
pub proof fn lemma_enter_settles(flow: PageFlow)
    ensures
        spec_leaving(PageFlow { next_page: flow.next_page, last_page: flow.next_page }) is None,
{
}

/// What polling a background request gave.
pub enum Received<T> {
    /// The request finished with a result.
    Ready(T),
    /// The request finished with an error.
    Failed,
    /// The request is still running.
    Empty,
    /// The request went away without an answer.
    Closed,
}

/// Handles one poll of a background request: whether to keep the request
/// for the next frame (only while it still runs), and the result it
/// delivered, if any.
pub fn check_rx<T>(received: Received<T>) -> (outcome: (bool, Option<T>))
    ensures
        outcome.0 == (received is Empty),
        match received {
            Received::Ready(data) => outcome.1 == Some(data),
            _ => outcome.1 is None,
        },
{
    match received {
        Received::Ready(data) => (false, Some(data)),
        Received::Failed => (false, None),
        Received::Empty => (true, None),
        Received::Closed => (false, None),
    }
}

/// The interval between two synchronizations of the recurring tasks, in
/// seconds: ten minutes.
pub const SYNC_INTERVAL_SECS: i64 = 600;

/// Whether the time since the last synchronization, `secs` seconds and
/// `nanos` nanoseconds, exceeds the interval.
pub fn needs_sync(secs: i64, nanos: i32) -> (sync: bool)
    ensures
        sync == (secs > SYNC_INTERVAL_SECS || (secs == SYNC_INTERVAL_SECS && nanos > 0)),
{
    secs > SYNC_INTERVAL_SECS || (secs == SYNC_INTERVAL_SECS && nanos > 0)
}

} // verus!
