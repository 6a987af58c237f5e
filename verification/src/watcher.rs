//! The completion watcher: the sole source of the terminal notification.
//!
//! Each successful launch hands out exactly one `Watcher`, which captures
//! the operation tag.  The shell's background task blocks on the child's
//! exit and only then calls `finish`, passing the observed exit status;
//! `finish` consumes the watcher, so no second terminal notification can be
//! produced for the same launch, and none can be produced before an exit
//! status exists to pass.

use vstd::prelude::*;
use crate::registry::Registry;

verus! {

/// How the child ended, as reported by the operating system's wait call:
/// a real exit code, or unknown (killed by a signal, or the wait failed).
#[derive(Clone, Copy, PartialEq, Eq, Structural, Debug)]
pub enum ExitStatus {
    /// The platform reported this exit code.
    Code(i32),
    /// No exit code could be determined.
    Unknown,
}

/// The sentinel exit code used when the true code cannot be determined.
pub const SENTINEL_CODE: i32 = -1;

/// The code carried by the terminal notification: the child's real exit
/// code when available, the sentinel otherwise.
pub open spec fn exit_code_spec(status: ExitStatus) -> int {
    match status {
        ExitStatus::Code(c) => c as int,
        ExitStatus::Unknown => SENTINEL_CODE as int,
    }
}

/// The authoritative "job finished" signal: exactly one per launch.
#[derive(Clone, Debug)]
pub struct DoneNotification {
    /// The operation tag captured at launch.
    pub op: String,
    /// The child's exit code, or the sentinel when it is unavailable.
    pub code: i32,
}

/// The one-shot right to emit the terminal notification for a launch.
pub struct Watcher {
    op: String,
}

impl View for Watcher {
    type V = Seq<char>;

    closed spec fn view(&self) -> Seq<char> {
        self.op@
    }
}

impl Watcher {
    /// Capture the operation tag of a launch that just recorded its child.
    /// Only the coordinator creates watchers, one per successful launch.
    pub(crate) fn new(op: &str) -> (w: Watcher)
        ensures
            w@ == op@,
    {
        Watcher { op: op.to_owned() }
    }

    /// The operation tag this watcher will stamp on its notification.
    pub fn op(&self) -> (r: &str)
        ensures
            r@ == self@,
    {
        self.op.as_str()
    }

    /// React to the child's termination: determine the exit code, clear the
    /// registry unconditionally (a no-op if a cancel already cleared it),
    /// and emit the terminal notification with the tag captured at launch.
    /// Consuming `self` makes a second terminal notification for this
    /// launch impossible.
    pub fn finish(self, registry: &mut Registry, status: ExitStatus) -> (done: DoneNotification)
        ensures
            final(registry)@ is None,
            done.op@ == self@,
            done.code as int == exit_code_spec(status),
    {
        let code: i32 = match status {
            ExitStatus::Code(c) => c,
            ExitStatus::Unknown => SENTINEL_CODE,
        };
        registry.clear();
        DoneNotification { op: self.op, code }
    }
}

} // verus!
