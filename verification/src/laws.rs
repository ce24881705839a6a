//! Laws of the lifecycle, stated over the spec transitions that the
//! operations' contracts are written in.
//!
//! The state lock serializes every transition, so a concurrent execution of
//! the exported operations is, as far as the handle is concerned, some
//! interleaving of the transition halves below.  Each law therefore speaks
//! of chains of spec transitions.

use vstd::prelude::*;

use crate::codes::EMISSARY_ERROR_ALREADY_STARTED;
use crate::codes::EMISSARY_ERROR_NOT_STARTED;
use crate::codes::EMISSARY_SUCCESS;
use crate::router::is_fresh;
use crate::router::port_code;
use crate::router::spec_sam_available;
use crate::router::spec_start_begin;
use crate::router::spec_start_complete;
use crate::router::spec_start_fail;
use crate::router::spec_stop;
use crate::router::spec_stop_begin;
use crate::router::spec_stop_finish;
use crate::router::EmissaryRouter;
use crate::state::named_state;
use crate::state::StartFailure;
use crate::state::StopDecision;

verus! {

/// One lifecycle transition, taken while the state lock is held.
pub enum LifecycleOp {
    /// The admission step of a start.
    StartBegin,
    /// The record of a failed start.
    StartFail(StartFailure),
    /// The record of a successful start, with what it discovered and the
    /// shutdown sender it created.
    StartComplete(Option<u16>, Option<u16>, tokio::sync::mpsc::Sender<()>),
    /// The first half of a stop.
    StopBegin,
    /// The second half of a stop.
    StopFinish,
}

/// The handle after one transition.
pub open spec fn apply_op(h: EmissaryRouter, op: LifecycleOp) -> EmissaryRouter {
    match op {
        LifecycleOp::StartBegin => spec_start_begin(h).0,
        LifecycleOp::StartFail(f) => spec_start_fail(h, f).0,
        LifecycleOp::StartComplete(sam_tcp, sam_udp, shutdown_tx) => spec_start_complete(
            h,
            sam_tcp,
            sam_udp,
            shutdown_tx,
        ).0,
        LifecycleOp::StopBegin => spec_stop_begin(h).0,
        LifecycleOp::StopFinish => spec_stop_finish(h).0,
    }
}

/// The handle after a sequence of transitions.
pub open spec fn apply_ops(h: EmissaryRouter, ops: Seq<LifecycleOp>) -> EmissaryRouter
    decreases ops.len(),
{
    if ops.len() == 0 {
        h
    } else {
        apply_ops(apply_op(h, ops[0]), ops.drop_first())
    }
}

/// Under every sequence of interleaved transitions — and so under every
/// sequence of concurrent start, stop and status calls — the state is one
/// of the five named variants, never partially constructed or torn.
pub proof fn lemma_state_always_named(h: EmissaryRouter, ops: Seq<LifecycleOp>)
    ensures
        named_state(apply_ops(h, ops).state),
    decreases ops.len(),
{
    if ops.len() > 0 {
        lemma_state_always_named(apply_op(h, ops[0]), ops.drop_first());
    }
}

/// Two overlapping starts on a stopped handle yield exactly one success and
/// one `AlreadyStarted`.  The admission step that runs first proceeds and marks the
/// handle `Starting`; the other is refused without a change, whether
/// it runs while the first start is still in progress or after the first
/// start completed.
pub proof fn lemma_concurrent_start_exclusive(
    h: EmissaryRouter,
    sam_tcp: Option<u16>,
    sam_udp: Option<u16>,
    shutdown_tx: tokio::sync::mpsc::Sender<()>,
)
    requires
        h.state is Stopped,
    ensures
        spec_start_begin(h).1 == Ok::<(), i32>(()),
        spec_start_begin(h).0.state is Starting,
        spec_start_begin(spec_start_begin(h).0).1 == Err::<(), i32>(EMISSARY_ERROR_ALREADY_STARTED),
        spec_start_begin(spec_start_begin(h).0).0 == spec_start_begin(h).0,
        spec_start_complete(spec_start_begin(h).0, sam_tcp, sam_udp, shutdown_tx).1
            == EMISSARY_SUCCESS,
        spec_start_complete(spec_start_begin(h).0, sam_tcp, sam_udp, shutdown_tx).0.state
            is Running,
        spec_start_begin(spec_start_complete(spec_start_begin(h).0, sam_tcp, sam_udp, shutdown_tx).0).1
            == Err::<(), i32>(EMISSARY_ERROR_ALREADY_STARTED),
        spec_start_begin(spec_start_complete(spec_start_begin(h).0, sam_tcp, sam_udp, shutdown_tx).0).0
            == spec_start_complete(spec_start_begin(h).0, sam_tcp, sam_udp, shutdown_tx).0,
{
}

/// A stop on a stopped handle is an idempotent no-op: it reports
/// `NotStarted` and leaves the handle exactly as it was.
pub proof fn lemma_stop_on_stopped_no_op(h: EmissaryRouter)
    requires
        h.state is Stopped,
    ensures
        spec_stop(h) == (h, EMISSARY_ERROR_NOT_STARTED),
        spec_stop_begin(h) == (h, StopDecision::Done(EMISSARY_ERROR_NOT_STARTED)),
{
}

/// Two overlapping stops on a running handle make at most one transition to
/// `Stopped` and both report success: the stop whose first half runs first
/// capture the sender, advance to `Stopping` and later to `Stopped`; a stop
/// whose first half runs between those halves observes `Stopping`, changes
/// nothing, and also reports success.  In no interleaving does the state
/// return to `Running`.
pub proof fn lemma_concurrent_stop_single_transition(h: EmissaryRouter)
    requires
        h.state is Running,
    ensures
        spec_stop_begin(h).0.state is Stopping,
        spec_stop_begin(h).1 is Signal,
        spec_stop_begin(spec_stop_begin(h).0) == (
            spec_stop_begin(h).0,
            StopDecision::Done(EMISSARY_SUCCESS),
        ),
        spec_stop_finish(spec_stop_begin(h).0).0.state is Stopped,
        spec_stop_finish(spec_stop_begin(h).0).1 == EMISSARY_SUCCESS,
        !(spec_stop_begin(h).0.state is Running),
        !(spec_stop_finish(spec_stop_begin(h).0).0.state is Running),
        !(spec_stop_begin(spec_stop_finish(spec_stop_begin(h).0).0).0.state is Running),
{
}

/// Bridge availability is gated on both the state and the two discovered
/// ports: it reads 0 on a fresh handle, 0 while the handle is starting,
/// 1 after a start exactly when that start discovered both bridge
/// addresses, and 0 again once a stop has quiesced the handle.
pub proof fn lemma_sam_available_gating(
    h: EmissaryRouter,
    sam_tcp: Option<u16>,
    sam_udp: Option<u16>,
    shutdown_tx: tokio::sync::mpsc::Sender<()>,
)
    requires
        is_fresh(h),
    ensures
        spec_sam_available(h) == 0,
        spec_sam_available(spec_start_begin(h).0) == 0,
        ({
            let started = spec_start_complete(spec_start_begin(h).0, sam_tcp, sam_udp, shutdown_tx).0;
            &&& spec_sam_available(started) == (if sam_tcp is Some && sam_udp is Some {
                1i32
            } else {
                0i32
            })
            &&& spec_sam_available(spec_stop(started).0) == 0
        }),
{
}

/// The port getters report 0 before any successful start; after one they
/// report exactly the ports the start discovered.
pub proof fn lemma_ports_follow_discovery(
    h: EmissaryRouter,
    tcp: u16,
    udp: u16,
    shutdown_tx: tokio::sync::mpsc::Sender<()>,
)
    requires
        is_fresh(h),
    ensures
        port_code(h.sam_tcp_port) == 0,
        port_code(h.sam_udp_port) == 0,
        port_code(spec_start_begin(h).0.sam_tcp_port) == 0,
        port_code(spec_start_begin(h).0.sam_udp_port) == 0,
        ({
            let started = spec_start_complete(
                spec_start_begin(h).0,
                Some(tcp),
                Some(udp),
                shutdown_tx,
            ).0;
            port_code(started.sam_tcp_port) == tcp as i32 && port_code(started.sam_udp_port)
                == udp as i32
        }),
{
}

} // verus!
