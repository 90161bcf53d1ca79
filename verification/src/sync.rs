//! The synchronization of recurring tasks: every so often, each recurring
//! task makes today's task, which is added to the task list unless a task
//! with its title is already there.

use vstd::prelude::*;

verus! {

/// The kinds of recurring task whose synchronization the library decides.
#[derive(Clone, Copy, Debug, PartialEq, Eq, Structural)]
pub enum Recurrence {
    Daily,
    Monthly,
}

/// What the synchronization does with one recurring task.
#[derive(Clone, Copy, Debug, PartialEq, Eq, Structural)]
pub enum SyncAction {
    /// Nothing: the task is left out, or today's task is already listed.
    Skip,
    /// Add today's task to the task list.
    Insert,
}

/// Whether a recurring task takes part in the synchronization: every daily
/// task, and a monthly task only while it is active.
pub open spec fn spec_takes_part(recurrence: Recurrence, active: bool) -> bool {
    match recurrence {
        Recurrence::Daily => true,
        Recurrence::Monthly => active,
    }
}

/// Whether the synchronization looks up today's task of a recurring task
/// (by its title): only for a task that takes part.
pub fn takes_part(recurrence: Recurrence, active: bool) -> (looks_up: bool)
    ensures
        looks_up == spec_takes_part(recurrence, active),
{
    match recurrence {
        Recurrence::Daily => true,
        Recurrence::Monthly => active,
    }
}

/// What the synchronization does with one recurring task.
pub open spec fn spec_sync_action(recurrence: Recurrence, active: bool, existing_found: bool) -> SyncAction {
    if spec_takes_part(recurrence, active) && !existing_found {
        SyncAction::Insert
    } else {
        SyncAction::Skip
    }
}

/// One step of the synchronization, for one recurring task: today's task is
/// inserted when the recurring task takes part and the look-up by title
/// found no task (`existing_found` is what that look-up gave; it is not
/// made for a task that does not take part).
pub fn sync_action(recurrence: Recurrence, active: bool, existing_found: bool) -> (action: SyncAction)
    ensures
        action == spec_sync_action(recurrence, active, existing_found),
{
    if takes_part(recurrence, active) && !existing_found {
        SyncAction::Insert
    } else {
        SyncAction::Skip
    }
}

/// The synchronization never adds a task that is already listed; it adds
/// today's task of every daily task, active or not, and of every active
/// monthly task, when it is missing; an inactive monthly task adds nothing.
pub proof fn lemma_sync_adds_missing_tasks_only(recurrence: Recurrence, active: bool)
    ensures
        spec_sync_action(recurrence, active, true) == SyncAction::Skip,
        spec_sync_action(Recurrence::Daily, active, false) == SyncAction::Insert,
        spec_takes_part(Recurrence::Daily, active),
        spec_sync_action(Recurrence::Monthly, true, false) == SyncAction::Insert,
        spec_sync_action(Recurrence::Monthly, false, false) == SyncAction::Skip,
        spec_sync_action(Recurrence::Monthly, active, false) == SyncAction::Insert <==> active,
{
}

} // verus!
