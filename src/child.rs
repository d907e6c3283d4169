//! Teardown of a child process that is no longer wanted: kill it if it is
//! still running, then reap it.

use vstd::prelude::*;

verus! {

/// The OS error number for "no child process".
pub const NO_CHILD_ERRNO: i32 = 10;

/// What a non-blocking status probe of a child returned.
#[derive(Debug, Clone, Copy, PartialEq, Eq, Structural)]
pub enum WaitProbe {
    /// It is still running.
    Running,
    /// It has exited, successfully or not.
    Exited { success: bool },
    /// The probe failed, with the OS error number where there is one.
    Error { errno: Option<i32> },
}

/// What to do with a child at teardown, and how loudly to report.
#[derive(Debug, Clone, Copy, PartialEq, Eq, Structural)]
pub struct Teardown {
    /// Kill it first.
    pub kill: bool,
    /// Reap it.
    pub wait: bool,
    /// Warn that it had exited with failure.
    pub warn_failed_exit: bool,
}

/// The teardown of a child after probing it: a running child is killed;
/// any child that could be probed is reaped; a failed exit is warned about.
pub open spec fn spec_teardown(probe: WaitProbe) -> Teardown {
    Teardown {
        kill: probe == WaitProbe::Running,
        wait: !(probe is Error),
        warn_failed_exit: probe == (WaitProbe::Exited { success: false }),
    }
}

/// The teardown of a child after probing it.
pub fn teardown_plan(probe: WaitProbe) -> (r: Teardown)
    ensures
        r == spec_teardown(probe),
{
    match probe {
        WaitProbe::Running => Teardown { kill: true, wait: true, warn_failed_exit: false },
        WaitProbe::Exited { success } => Teardown { kill: false, wait: true, warn_failed_exit: !success },
        WaitProbe::Error { .. } => Teardown { kill: false, wait: false, warn_failed_exit: false },
    }
}

/// Whether an error from probing or reaping a child is only worth a debug
/// note: it is the "no child process" error, the child being gone already.
pub fn is_quiet_wait_error(errno: Option<i32>) -> (r: bool)
    ensures
        r == (errno == Some(NO_CHILD_ERRNO)),
{
    match errno {
        Some(e) => e == NO_CHILD_ERRNO,
        None => false,
    }
}

/// A child whose status could be probed is reaped at teardown, and one
/// still running is killed before it is reaped.
pub proof fn lemma_probed_children_reaped(probe: WaitProbe)
    requires
        !(probe is Error),
    ensures
        spec_teardown(probe).wait,
        probe == WaitProbe::Running ==> spec_teardown(probe).kill,
{
}

} // verus!
