//! The ways in which a task of the controller can fail.

use vstd::prelude::*;

verus! {

/// Why a task gave up. No task retries on its own: the failure goes up to the
/// orchestrator, which ends the domain that the task ran in.
#[derive(Clone, Copy, Debug, PartialEq, Eq, Structural)]
pub enum Error {
    /// A pin or a peripheral could not be read or written.
    Hardware,
    /// A channel refused a value or had none to give, as when its peer is gone.
    Service,
    /// A one-shot timer could not be armed.
    Timer,
    /// A task registry of fixed capacity is full.
    CapacityExceeded,
}

} // verus!
