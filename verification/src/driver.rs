use vstd::prelude::*;

verus! {

/// How busy a running driver is, as reported to the host.
#[derive(Copy, Clone, Debug, PartialEq, Eq, Structural)]
pub enum DriverRunningState {
    /// The export server stands by, but no reader works and no remote is
    /// connected.
    Lazy,
    /// At least one reader is running for local consumers.
    Normal,
    /// Remote clients are connected to the export server.
    Busy,
}

/// The driver's aggregate state over all its readers and the export server.
#[derive(Copy, Clone, Debug, PartialEq, Eq, Structural)]
pub enum DriverState {
    Idle,
    Running(DriverRunningState),
}

/// The aggregate status: busy while remote connections exist, normal while
/// any reader runs, lazy while only the export server runs, idle otherwise.
pub open spec fn spec_status(
    export_busy: bool,
    any_reader_running: bool,
    export_alive: bool,
) -> DriverState {
    if export_busy {
        DriverState::Running(DriverRunningState::Busy)
    } else if any_reader_running {
        DriverState::Running(DriverRunningState::Normal)
    } else if export_alive {
        DriverState::Running(DriverRunningState::Lazy)
    } else {
        DriverState::Idle
    }
}

/// Computes the driver's reported state from what it observes: whether the
/// export server has connections, whether any reader is running, and
/// whether the export server itself is up. `hibernate` drops the last flag,
/// `wake_up` raises it again; with no readers running and no connections
/// the report therefore moves `Running(Lazy)` → `Idle` → `Running(Lazy)`.
pub fn status_of(export_busy: bool, any_reader_running: bool, export_alive: bool) -> (s:
    DriverState)
    ensures
        s == spec_status(export_busy, any_reader_running, export_alive),
{
    if export_busy {
        DriverState::Running(DriverRunningState::Busy)
    } else if any_reader_running {
        DriverState::Running(DriverRunningState::Normal)
    } else if export_alive {
        DriverState::Running(DriverRunningState::Lazy)
    } else {
        DriverState::Idle
    }
}

/// Whether any reader in a collection is currently running.
pub fn any_running(flags: &Vec<bool>) -> (b: bool)
    ensures
        b <==> exists|i: int| 0 <= i < flags@.len() && flags@[i],
{
    let n = flags.len();
    let mut k: usize = 0;
    while k < n
        invariant
            k <= n,
            n == flags@.len(),
            forall|i: int| 0 <= i < k ==> !flags@[i],
        decreases n - k,
    {
        if flags[k] {
            return true;
        }
        k += 1;
    }
    false
}

} // verus!
