//! The lifecycle state machine of one router handle.
//!
//! Exactly one variant is active at any instant.  The `Running` variant owns
//! the shutdown sender; it is moved out, and so destroyed, precisely when
//! the state leaves `Running`.  The event subscription and the shared owner
//! of the execution context are held beside the handle by the embedding
//! layer for exactly as long as the state reads `Running`.

use vstd::prelude::*;

use crate::codes::EMISSARY_ERROR_GENERIC;
use crate::codes::EMISSARY_ERROR_NETWORK;
use crate::codes::EMISSARY_ERROR_RESOURCE;
use crate::codes::EMISSARY_STATUS_ERROR;
use crate::codes::EMISSARY_STATUS_RUNNING;
use crate::codes::EMISSARY_STATUS_STARTING;
use crate::codes::EMISSARY_STATUS_STOPPED;
use crate::codes::EMISSARY_STATUS_STOPPING;

verus! {

/// Lifecycle state of one router handle.
pub enum RouterState {
    /// Created but not started, or quiesced after a stop.
    Stopped,
    /// A start is in progress.
    Starting,
    /// The service is operating; the shutdown sender is owned here.
    Running { shutdown_tx: tokio::sync::mpsc::Sender<()> },
    /// A stop is in progress.
    Stopping,
    /// The last operation left an unrecoverable fault.
    Error,
}

/// The status value reported across the boundary for each state.
pub open spec fn status_of(s: RouterState) -> int {
    match s {
        RouterState::Stopped => EMISSARY_STATUS_STOPPED as int,
        RouterState::Starting => EMISSARY_STATUS_STARTING as int,
        RouterState::Running { .. } => EMISSARY_STATUS_RUNNING as int,
        RouterState::Stopping => EMISSARY_STATUS_STOPPING as int,
        RouterState::Error => EMISSARY_STATUS_ERROR as int,
    }
}

/// A state is one of the five named variants.
pub open spec fn named_state(s: RouterState) -> bool {
    ||| s is Stopped
    ||| s is Starting
    ||| s is Running
    ||| s is Stopping
    ||| s is Error
}

/// Why a start attempt failed after it was admitted.
pub enum StartFailure {
    /// The asynchronous execution context could not be created.
    ContextCreation,
    /// The engine's asynchronous construction failed.
    EngineConstruction,
    /// Any other internal fault, including a caught abort.
    Internal,
}

/// The code reported for each start failure.
pub open spec fn failure_code(f: StartFailure) -> i32 {
    match f {
        StartFailure::ContextCreation => EMISSARY_ERROR_RESOURCE,
        StartFailure::EngineConstruction => EMISSARY_ERROR_NETWORK,
        StartFailure::Internal => EMISSARY_ERROR_GENERIC,
    }
}

/// What the first half of a stop decided.
pub enum StopDecision {
    /// The state was `Running`: the captured shutdown sender must be
    /// signalled, after which the second half of the stop reports success.
    Signal(tokio::sync::mpsc::Sender<()>),
    /// No signal is owed; the stop is complete with this code.
    Done(i32),
}

} // verus!
