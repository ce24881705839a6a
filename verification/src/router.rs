//! The router handle and its lifecycle operations.
//!
//! `EmissaryRouter` is the value that every exported operation works on.
//! Each operation is split at the points where the embedding layer performs
//! blocking or asynchronous work with no lock held: `start_begin` is the
//! admission step taken under the lock before the execution context is created,
//! `start_complete` and `start_fail` record the outcome, and `stop_begin` /
//! `stop_finish` bracket the shutdown signal.  Every spec transition below
//! is total, so the contracts pin the new handle value and the reported
//! code for every state.

use vstd::prelude::*;

use crate::codes::EMISSARY_ERROR_ALREADY_STARTED;
use crate::codes::EMISSARY_ERROR_GENERIC;
use crate::codes::EMISSARY_ERROR_NOT_STARTED;
use crate::codes::EMISSARY_SUCCESS;
use crate::codes::EMISSARY_STATUS_ERROR;
use crate::codes::EMISSARY_STATUS_RUNNING;
use crate::codes::EMISSARY_STATUS_STARTING;
use crate::codes::EMISSARY_STATUS_STOPPED;
use crate::codes::EMISSARY_STATUS_STOPPING;
use crate::shutdown::send_stop_signal;
use crate::state::failure_code;
use crate::state::status_of;
use crate::state::RouterState;
use crate::state::StartFailure;
use crate::state::StopDecision;

verus! {

/// Settings of the local bridge sub-service used at the next start.
pub struct SamSettings {
    /// TCP listen port; 0 asks the operating system to assign one.
    pub tcp_port: u16,
    /// UDP listen port; 0 asks the operating system to assign one.
    pub udp_port: u16,
    /// Host the bridge binds to.
    pub host: String,
}

/// Configuration used at the next start.
pub struct RouterConfig {
    /// Local bridge settings, or `None` to leave the bridge disabled.
    pub sam: Option<SamSettings>,
    /// Whether transit relaying is enabled.
    pub transit_enabled: bool,
    /// Whether reduced-security tunnels are allowed for fast startup.
    pub insecure_tunnels: bool,
}

/// The default configuration: local bridge enabled on OS-assigned ports,
/// transit relaying disabled, reduced-security tunnels enabled.
pub open spec fn is_default_config(c: RouterConfig) -> bool {
    &&& c.sam matches Some(s) && s.tcp_port == 0 && s.udp_port == 0 && s.host@ == "127.0.0.1"@
    &&& !c.transit_enabled
    &&& c.insecure_tunnels
}

/// One router handle: the state machine, the configuration used at the next
/// start, and the bridge ports discovered during the last successful start.
pub struct EmissaryRouter {
    /// Lifecycle state; the embedding layer serializes access with a lock.
    pub state: RouterState,
    /// Configuration read at the next start.
    pub config: RouterConfig,
    /// TCP port of the local bridge, set during a successful start.
    pub sam_tcp_port: Option<u16>,
    /// UDP port of the local bridge, set during a successful start.
    pub sam_udp_port: Option<u16>,
}

/// A handle exactly as `new` built it.
pub open spec fn is_fresh(h: EmissaryRouter) -> bool {
    &&& h.state is Stopped
    &&& h.sam_tcp_port is None
    &&& h.sam_udp_port is None
    &&& is_default_config(h.config)
}

/// The same handle with only the state replaced.
pub open spec fn with_state(h: EmissaryRouter, s: RouterState) -> EmissaryRouter {
    EmissaryRouter {
        state: s,
        config: h.config,
        sam_tcp_port: h.sam_tcp_port,
        sam_udp_port: h.sam_udp_port,
    }
}

/// The admission step of a start: only a stopped handle may proceed, and it is marked
/// `Starting` before the lock is released.  A handle already starting or
/// running is refused with `AlreadyStarted`; one stopping or faulted with
/// `Generic`.
pub open spec fn spec_start_begin(h: EmissaryRouter) -> (EmissaryRouter, Result<(), i32>) {
    match h.state {
        RouterState::Stopped => (with_state(h, RouterState::Starting), Ok(())),
        RouterState::Starting => (h, Err(EMISSARY_ERROR_ALREADY_STARTED)),
        RouterState::Running { .. } => (h, Err(EMISSARY_ERROR_ALREADY_STARTED)),
        RouterState::Stopping => (h, Err(EMISSARY_ERROR_GENERIC)),
        RouterState::Error => (h, Err(EMISSARY_ERROR_GENERIC)),
    }
}

/// A failed start leaves the handle faulted and reports the failure's code.
pub open spec fn spec_start_fail(h: EmissaryRouter, f: StartFailure) -> (EmissaryRouter, i32) {
    (with_state(h, RouterState::Error), failure_code(f))
}

/// A successful start: the handle becomes `Running` owning the shutdown
/// sender, and each discovered bridge port overwrites its field; a port the
/// start did not discover leaves its field as it was.
pub open spec fn spec_start_complete(
    h: EmissaryRouter,
    sam_tcp: Option<u16>,
    sam_udp: Option<u16>,
    shutdown_tx: tokio::sync::mpsc::Sender<()>,
) -> (EmissaryRouter, i32) {
    (
        EmissaryRouter {
            state: RouterState::Running { shutdown_tx },
            config: h.config,
            sam_tcp_port: if sam_tcp is Some {
                sam_tcp
            } else {
                h.sam_tcp_port
            },
            sam_udp_port: if sam_udp is Some {
                sam_udp
            } else {
                h.sam_udp_port
            },
        },
        EMISSARY_SUCCESS,
    )
}

/// The first half of a stop: a running handle advances to `Stopping` and
/// hands out its shutdown sender; every other state is restored unchanged
/// with the code it owes (`NotStarted` when there is nothing to stop,
/// success for a stop already in progress, `Generic` from a fault).
pub open spec fn spec_stop_begin(h: EmissaryRouter) -> (EmissaryRouter, StopDecision) {
    match h.state {
        RouterState::Running { shutdown_tx } => (
            with_state(h, RouterState::Stopping),
            StopDecision::Signal(shutdown_tx),
        ),
        RouterState::Stopped => (h, StopDecision::Done(EMISSARY_ERROR_NOT_STARTED)),
        RouterState::Starting => (h, StopDecision::Done(EMISSARY_ERROR_NOT_STARTED)),
        RouterState::Stopping => (h, StopDecision::Done(EMISSARY_SUCCESS)),
        RouterState::Error => (h, StopDecision::Done(EMISSARY_ERROR_GENERIC)),
    }
}

/// The second half of a stop, after the signal was sent: the handle is
/// quiesced.
pub open spec fn spec_stop_finish(h: EmissaryRouter) -> (EmissaryRouter, i32) {
    (with_state(h, RouterState::Stopped), EMISSARY_SUCCESS)
}

/// A whole stop as one step: both halves around the shutdown signal.
pub open spec fn spec_stop(h: EmissaryRouter) -> (EmissaryRouter, i32) {
    match h.state {
        RouterState::Running { .. } => (with_state(h, RouterState::Stopped), EMISSARY_SUCCESS),
        RouterState::Stopped => (h, EMISSARY_ERROR_NOT_STARTED),
        RouterState::Starting => (h, EMISSARY_ERROR_NOT_STARTED),
        RouterState::Stopping => (h, EMISSARY_SUCCESS),
        RouterState::Error => (h, EMISSARY_ERROR_GENERIC),
    }
}

/// Whether the local bridge is reported available: only a running handle
/// with both bridge ports discovered.
pub open spec fn spec_sam_available(h: EmissaryRouter) -> i32 {
    if h.state is Running && h.sam_tcp_port is Some && h.sam_udp_port is Some {
        1
    } else {
        0
    }
}

/// The port value reported across the boundary: the port when one is set,
/// 0 when none is.
pub open spec fn port_code(p: Option<u16>) -> i32 {
    match p {
        Some(port) => port as i32,
        None => 0,
    }
}

impl EmissaryRouter {
    /// A fresh handle: stopped, default configuration, no ports discovered.
    pub fn new() -> (r: EmissaryRouter)
        ensures
            is_fresh(r),
    {
        EmissaryRouter {
            state: RouterState::Stopped,
            config: RouterConfig {
                sam: Some(SamSettings {
                    tcp_port: 0,
                    udp_port: 0,
                    host: String::from_str("127.0.0.1"),
                }),
                transit_enabled: false,
                insecure_tunnels: true,
            },
            sam_tcp_port: None,
            sam_udp_port: None,
        }
    }

    /// The admission step of a start, run under the state lock.  `Ok` means the
    /// handle was stopped and is now marked `Starting`; the caller must go
    /// on to create the execution context and build the engine, and then
    /// report through `start_complete` or `start_fail`.  `Err` carries the
    /// code owed for every other state.
    pub fn start_begin(&mut self) -> (r: Result<(), i32>)
        ensures
            *final(self) == spec_start_begin(*old(self)).0,
            r == spec_start_begin(*old(self)).1,
    {
        match self.state {
            RouterState::Stopped => {
                self.state = RouterState::Starting;
                Ok(())
            },
            RouterState::Starting => Err(EMISSARY_ERROR_ALREADY_STARTED),
            RouterState::Running { .. } => Err(EMISSARY_ERROR_ALREADY_STARTED),
            RouterState::Stopping => Err(EMISSARY_ERROR_GENERIC),
            RouterState::Error => Err(EMISSARY_ERROR_GENERIC),
        }
    }

    /// Records a start that failed after being admitted: the handle is left
    /// faulted and the failure's code is returned.
    pub fn start_fail(&mut self, f: StartFailure) -> (r: i32)
        ensures
            *final(self) == spec_start_fail(*old(self), f).0,
            r == spec_start_fail(*old(self), f).1,
    {
        self.state = RouterState::Error;
        match f {
            StartFailure::ContextCreation => crate::codes::EMISSARY_ERROR_RESOURCE,
            StartFailure::EngineConstruction => crate::codes::EMISSARY_ERROR_NETWORK,
            StartFailure::Internal => EMISSARY_ERROR_GENERIC,
        }
    }

    /// Records a start that succeeded: the discovered bridge ports are
    /// written (a port not discovered leaves its field as it was), and the
    /// handle becomes `Running`, owning the shutdown sender.
    pub fn start_complete(
        &mut self,
        sam_tcp: Option<u16>,
        sam_udp: Option<u16>,
        shutdown_tx: tokio::sync::mpsc::Sender<()>,
    ) -> (r: i32)
        ensures
            *final(self) == spec_start_complete(*old(self), sam_tcp, sam_udp, shutdown_tx).0,
            r == spec_start_complete(*old(self), sam_tcp, sam_udp, shutdown_tx).1,
    {
        if sam_tcp.is_some() {
            self.sam_tcp_port = sam_tcp;
        }
        if sam_udp.is_some() {
            self.sam_udp_port = sam_udp;
        }
        self.state = RouterState::Running { shutdown_tx };
        EMISSARY_SUCCESS
    }

    /// The first half of a stop, run under the state lock: the current
    /// variant is replaced by `Stopping` and the previous variant decides.
    /// On `Signal` the caller must send on the returned sender and then call
    /// `stop_finish`; on `Done` the stop is complete with that code.
    pub fn stop_begin(&mut self) -> (d: StopDecision)
        ensures
            *final(self) == spec_stop_begin(*old(self)).0,
            d == spec_stop_begin(*old(self)).1,
    {
        let mut prev = RouterState::Stopping;
        core::mem::swap(&mut prev, &mut self.state);
        match prev {
            RouterState::Running { shutdown_tx } => StopDecision::Signal(shutdown_tx),
            RouterState::Stopped => {
                self.state = RouterState::Stopped;
                StopDecision::Done(EMISSARY_ERROR_NOT_STARTED)
            },
            RouterState::Starting => {
                self.state = RouterState::Starting;
                StopDecision::Done(EMISSARY_ERROR_NOT_STARTED)
            },
            RouterState::Stopping => {
                self.state = RouterState::Stopping;
                StopDecision::Done(EMISSARY_SUCCESS)
            },
            RouterState::Error => {
                self.state = RouterState::Error;
                StopDecision::Done(EMISSARY_ERROR_GENERIC)
            },
        }
    }

    /// The second half of a stop, after the shutdown signal was sent: the
    /// handle is quiesced.
    pub fn stop_finish(&mut self) -> (r: i32)
        ensures
            *final(self) == spec_stop_finish(*old(self)).0,
            r == spec_stop_finish(*old(self)).1,
    {
        self.state = RouterState::Stopped;
        EMISSARY_SUCCESS
    }

    /// A whole stop: the first half decides, the shutdown signal is sent
    /// when one is owed, and the handle is quiesced.
    pub fn stop(&mut self) -> (r: i32)
        ensures
            *final(self) == spec_stop(*old(self)).0,
            r == spec_stop(*old(self)).1,
    {
        match self.stop_begin() {
            StopDecision::Signal(shutdown_tx) => {
                send_stop_signal(&shutdown_tx);
                self.stop_finish()
            },
            StopDecision::Done(code) => code,
        }
    }

    /// The status value of the current state.
    pub fn get_status(&self) -> (r: i32)
        ensures
            r == status_of(self.state),
    {
        match self.state {
            RouterState::Stopped => EMISSARY_STATUS_STOPPED,
            RouterState::Starting => EMISSARY_STATUS_STARTING,
            RouterState::Running { .. } => EMISSARY_STATUS_RUNNING,
            RouterState::Stopping => EMISSARY_STATUS_STOPPING,
            RouterState::Error => EMISSARY_STATUS_ERROR,
        }
    }

    /// Whether the local bridge is available: 1 exactly when the handle is
    /// running and both bridge ports were discovered, else 0.
    pub fn sam_available(&self) -> (r: i32)
        ensures
            r == spec_sam_available(*self),
            r == 1 <==> (self.state is Running && self.sam_tcp_port is Some
                && self.sam_udp_port is Some),
    {
        match self.state {
            RouterState::Running { .. } => {
                if self.sam_tcp_port.is_some() && self.sam_udp_port.is_some() {
                    1
                } else {
                    0
                }
            },
            _ => 0,
        }
    }

    /// The TCP port of the local bridge, 0 when none was discovered.
    pub fn get_sam_tcp_port(&self) -> (r: i32)
        ensures
            r == port_code(self.sam_tcp_port),
    {
        sam_port_code(self.sam_tcp_port)
    }

    /// The UDP port of the local bridge, 0 when none was discovered.
    pub fn get_sam_udp_port(&self) -> (r: i32)
        ensures
            r == port_code(self.sam_udp_port),
    {
        sam_port_code(self.sam_udp_port)
    }
}

/// The value a guarded port field reports across the boundary.
pub fn sam_port_code(p: Option<u16>) -> (r: i32)
    ensures
        r == port_code(p),
{
    match p {
        Some(port) => port as i32,
        None => 0,
    }
}

} // verus!
