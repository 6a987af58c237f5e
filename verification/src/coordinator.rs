//! The launch/cancel coordinator.
//!
//! `check_launch` and `record_spawn` together are the launch path: the
//! first validates under the registry guard (at most one process runs at a
//! time, and the backend binary must be cached), the second records the
//! spawn outcome, rolling back to the empty registry when the spawn failed.
//! `cancel_take` and `cancel_verdict` are the cancel path: the first
//! atomically takes and clears the slot and names the kill action owed, the
//! second turns the kill outcome into the caller's result.  The spawning
//! and killing themselves are operating-system work done by the shell
//! between these calls.

use vstd::prelude::*;
use crate::errors::ToolError;
use crate::registry::Registry;
use crate::watcher::Watcher;

verus! {

/// The verdict of the pre-spawn validation: launch may proceed only when
/// nothing is tracked as running and the backend binary is cached.
pub open spec fn launch_check_spec(slot: Option<u32>, backend_exists: bool) -> Result<
    (),
    ToolError,
> {
    if slot is Some {
        Err(ToolError::ConcurrencyError)
    } else if !backend_exists {
        Err(ToolError::ConfigurationError)
    } else {
        Ok(())
    }
}

/// Validate a launch request under the registry guard, before any spawn
/// attempt: refuse with `ConcurrencyError` while a process is tracked, and
/// with `ConfigurationError` when the backend binary is not cached.
pub fn check_launch(registry: &Registry, backend_exists: bool) -> (r: Result<(), ToolError>)
    ensures
        r == launch_check_spec(registry@, backend_exists),
{
    if registry.running_pid().is_some() {
        Err(ToolError::ConcurrencyError)
    } else if !backend_exists {
        Err(ToolError::ConfigurationError)
    } else {
        Ok(())
    }
}

/// The registry slot after a launch records its spawn outcome.
pub open spec fn record_spawn_slot_spec(slot: Option<u32>, spawn_pid: Option<u32>) -> Option<
    u32,
> {
    if slot is Some {
        slot
    } else {
        spawn_pid
    }
}

/// Record the outcome of the spawn attempt made after `check_launch`
/// passed, still under the registry guard.  A successful spawn is tracked
/// and hands out the one watcher for this launch; a failed spawn leaves the
/// registry empty.  If something is already tracked, the request is refused
/// and nothing changes.
pub fn record_spawn(registry: &mut Registry, op: &str, spawn_pid: Option<u32>) -> (r: Result<
    Watcher,
    ToolError,
>)
    ensures
        final(registry)@ == record_spawn_slot_spec(old(registry)@, spawn_pid),
        old(registry)@ is Some ==> (r matches Err(e) && e == ToolError::ConcurrencyError),
        old(registry)@ is None && spawn_pid is None ==> (r matches Err(e) && e
            == ToolError::SpawnError),
        old(registry)@ is None && spawn_pid is Some ==> (r matches Ok(w) && w@ == op@),
{
    match spawn_pid {
        None => {
            if registry.running_pid().is_some() {
                Err(ToolError::ConcurrencyError)
            } else {
                Err(ToolError::SpawnError)
            }
        },
        Some(pid) => {
            if registry.try_acquire(pid) {
                Ok(Watcher::new(op))
            } else {
                Err(ToolError::ConcurrencyError)
            }
        },
    }
}

/// The termination request a cancel owes the operating system.
#[derive(Clone, Copy, PartialEq, Eq, Structural, Debug)]
pub enum CancelAction {
    /// Nothing was running: nothing to kill.
    Nothing,
    /// Forcibly terminate this process and its descendants.
    KillTree(u32),
}

/// The action a cancel takes, as a function of the slot it found.
pub open spec fn cancel_action_spec(slot: Option<u32>) -> CancelAction {
    match slot {
        Some(pid) => CancelAction::KillTree(pid),
        None => CancelAction::Nothing,
    }
}

/// Atomically take and clear the registry slot, and name the termination
/// request owed: kill the taken process tree, or nothing when the slot was
/// already empty.
pub fn cancel_take(registry: &mut Registry) -> (action: CancelAction)
    ensures
        final(registry)@ is None,
        action == cancel_action_spec(old(registry)@),
{
    match registry.take_and_clear() {
        Some(pid) => CancelAction::KillTree(pid),
        None => CancelAction::Nothing,
    }
}

/// The caller's result once the kill action has been carried out: a cancel
/// of nothing succeeds trivially, and a kill that the operating system
/// refused surfaces as `TerminationError`.
pub open spec fn cancel_verdict_spec(action: CancelAction, kill_succeeded: bool) -> Result<
    (),
    ToolError,
> {
    match action {
        CancelAction::Nothing => Ok(()),
        CancelAction::KillTree(_) => if kill_succeeded {
            Ok(())
        } else {
            Err(ToolError::TerminationError)
        },
    }
}

/// Turn the outcome of the termination request into the cancel call's
/// result.  On a platform without a tree-kill primitive the shell reports
/// success, making cancel a deliberate no-op there.
pub fn cancel_verdict(action: &CancelAction, kill_succeeded: bool) -> (r: Result<(), ToolError>)
    ensures
        r == cancel_verdict_spec(*action, kill_succeeded),
{
    match action {
        CancelAction::Nothing => Ok(()),
        CancelAction::KillTree(_) => if kill_succeeded {
            Ok(())
        } else {
            Err(ToolError::TerminationError)
        },
    }
}

/// At most one process runs at a time.  While a process is tracked, every
/// further launch attempt is refused with `ConcurrencyError`; validation
/// passes only from the empty registry with the backend cached; and once a
/// spawn is recorded the slot is occupied, so of two launches in a row at
/// most the first can succeed, until the watcher's clear or a cancel
/// empties the slot again.
pub proof fn lemma_launch_exclusion(slot: Option<u32>, b1: bool, b2: bool, pid: u32)
    ensures
        slot is Some ==> launch_check_spec(slot, b1) == Err::<(), ToolError>(
            ToolError::ConcurrencyError,
        ),
        launch_check_spec(slot, b1) is Ok ==> slot is None && b1,
        launch_check_spec(record_spawn_slot_spec(slot, Some(pid)), b2) == Err::<(), ToolError>(
            ToolError::ConcurrencyError,
        ),
        launch_check_spec(None, b2) is Ok <==> b2,
{
}

/// Cancel is idempotent and total: a cancel always leaves the slot empty,
/// an empty slot owes no kill action, and no kill action always yields a
/// success verdict — so cancelling twice in a row, or cancelling when
/// nothing is running, never errors on the second or empty call.
pub proof fn lemma_cancel_idempotent(slot: Option<u32>, kill_ok: bool)
    ensures
        cancel_action_spec(None) == CancelAction::Nothing,
        cancel_verdict_spec(cancel_action_spec(None), kill_ok) is Ok,
        cancel_action_spec(slot) is Nothing ==> cancel_verdict_spec(
            cancel_action_spec(slot),
            kill_ok,
        ) is Ok,
{
}

} // verus!
