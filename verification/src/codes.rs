//! Integer codes crossing the foreign boundary.
//!
//! Operations report their outcome as one of these codes; status queries use
//! the separate status values.  The gap at -3 is deliberate: that slot is
//! reserved in the wire surface and must stay unused.

use vstd::prelude::*;

verus! {

/// The operation took effect as requested.
pub const EMISSARY_SUCCESS: i32 = 0;

/// An internal fault: a caught abort, a poisoned lock, or any failure with
/// no more specific code.
pub const EMISSARY_ERROR_GENERIC: i32 = -1;

/// A caller contract violation, such as a null handle.
pub const EMISSARY_ERROR_INVALID_PARAM: i32 = -2;

/// A start was requested while the service is already starting or running.
pub const EMISSARY_ERROR_ALREADY_STARTED: i32 = -4;

/// A stop was requested while the service is stopped or still starting.
pub const EMISSARY_ERROR_NOT_STARTED: i32 = -5;

/// Engine construction failed for a network-related reason.
pub const EMISSARY_ERROR_NETWORK: i32 = -6;

/// The asynchronous execution context could not be created.
pub const EMISSARY_ERROR_RESOURCE: i32 = -7;

/// Status value: the service is stopped.
pub const EMISSARY_STATUS_STOPPED: i32 = 0;

/// Status value: a start is in progress.
pub const EMISSARY_STATUS_STARTING: i32 = 1;

/// Status value: the service is operating.
pub const EMISSARY_STATUS_RUNNING: i32 = 2;

/// Status value: a stop is in progress.
pub const EMISSARY_STATUS_STOPPING: i32 = 3;

/// Status value: the last operation left the service in an unrecoverable
/// fault; the only documented recovery is destroy followed by a fresh init.
pub const EMISSARY_STATUS_ERROR: i32 = 4;

} // verus!
