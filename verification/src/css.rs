//! The style sheet of the bar: where it lies, and when it is compiled again.

use vstd::prelude::*;

verus! {

/// Where the compiled style sheet lies.
pub const FILE: &'static str = "/tmp/gnyprland/index.css";

/// What happened to a file under the style directory.
#[derive(Clone, Copy, Debug, PartialEq, Eq, Structural)]
pub enum Change {
    /// Something, it is not known what.
    Any,
    /// The file was read.
    Access,
    /// The file was created.
    Create,
    /// The file was written to or renamed.
    Modify,
    /// The file was removed.
    Remove,
    /// Something else; the watcher itself may have ended.
    Other,
}

/// What the watcher of the style directory does about one change.
#[derive(Clone, Copy, Debug, PartialEq, Eq, Structural)]
pub enum Watch {
    /// Stop watching.
    Stop,
    /// Let the change pass.
    Skip,
    /// Compile the style sheet and load it again.
    Recompile,
}

/// How a run of the style compiler ended.
#[derive(Clone, Copy, Debug, PartialEq, Eq, Structural)]
pub enum Compiled {
    /// The style sheet was written.
    Succeeded,
    /// The compiler failed with this exit code.
    Failed(i32),
    /// The compiler ended without an exit code.
    Killed,
}

/// How long, in milliseconds, changes are let pass after a recompilation.
pub const QUIET_MILLIS: u64 = 500;

/// Whether a change to the style directory calls for a recompilation:
/// creating, modifying and removing a file do.
pub fn recompiles(change: Change) -> (b: bool)
    ensures
        b == (change is Create || change is Modify || change is Remove),
{
    match change {
        Change::Create | Change::Modify | Change::Remove => true,
        _ => false,
    }
}

/// What the watcher does about `change` when `elapsed` milliseconds have gone
/// by since it last recompiled. A change of the kind `Other` ends the
/// watching. Of the other changes those pass that do not call for a
/// recompilation, and those that come within the quiet time.
pub fn watch(change: Change, elapsed: u64) -> (decision: Watch)
    ensures
        decision == if change is Other {
            Watch::Stop
        } else if !(change is Create || change is Modify || change is Remove) {
            Watch::Skip
        } else if elapsed <= QUIET_MILLIS {
            Watch::Skip
        } else {
            Watch::Recompile
        },
{
    match change {
        Change::Other => Watch::Stop,
        _ => if !recompiles(change) {
            Watch::Skip
        } else if elapsed <= QUIET_MILLIS {
            Watch::Skip
        } else {
            Watch::Recompile
        },
    }
}

/// Reads the exit code of the style compiler.
pub fn compiled(code: Option<i32>) -> (outcome: Compiled)
    ensures
        outcome == match code {
            Some(0) => Compiled::Succeeded,
            Some(code) => Compiled::Failed(code),
            None => Compiled::Killed,
        },
{
    match code {
        Some(0) => Compiled::Succeeded,
        Some(code) => Compiled::Failed(code),
        None => Compiled::Killed,
    }
}

} // verus!
