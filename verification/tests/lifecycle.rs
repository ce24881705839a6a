//! Tests of the router handle's lifecycle, driving the state machine the
//! way the foreign boundary does: the admission step of a start, the outcome of the
//! engine construction, the two halves of a stop around the shutdown
//! signal, and the status and port queries in between.

use emissary_c::EmissaryRouter;
use emissary_c::StartFailure;
use emissary_c::StopDecision;

fn shutdown_channel() -> (tokio::sync::mpsc::Sender<()>, tokio::sync::mpsc::Receiver<()>) {
    tokio::sync::mpsc::channel(1)
}

#[test]
fn fresh_handle_reports_stopped_defaults() {
    let h = EmissaryRouter::new();
    assert_eq!(h.get_status(), 0);
    assert_eq!(h.sam_available(), 0);
    assert_eq!(h.get_sam_tcp_port(), 0);
    assert_eq!(h.get_sam_udp_port(), 0);
}

#[test]
fn fresh_handle_uses_default_config() {
    let h = EmissaryRouter::new();
    let sam = h.config.sam.as_ref().expect("bridge enabled by default");
    assert_eq!(sam.tcp_port, 0);
    assert_eq!(sam.udp_port, 0);
    assert_eq!(sam.host, "127.0.0.1");
    assert!(!h.config.transit_enabled);
    assert!(h.config.insecure_tunnels);
}

#[test]
fn full_lifecycle_with_discovered_bridge() {
    let (tx, mut rx) = shutdown_channel();
    let mut h = EmissaryRouter::new();

    assert!(h.start_begin().is_ok());
    assert_eq!(h.get_status(), 1);
    assert_eq!(h.start_complete(Some(7656), Some(7655), tx), 0);

    assert_eq!(h.get_status(), 2);
    assert_eq!(h.sam_available(), 1);
    assert_eq!(h.get_sam_tcp_port(), 7656);
    assert_eq!(h.get_sam_udp_port(), 7655);

    assert_eq!(h.stop(), 0);
    assert_eq!(h.get_status(), 0);
    assert!(rx.try_recv().is_ok(), "stop must deliver the shutdown signal");
}

#[test]
fn start_failure_leaves_error_state() {
    let mut h = EmissaryRouter::new();
    assert!(h.start_begin().is_ok());
    assert_eq!(h.start_fail(StartFailure::ContextCreation), -7);
    assert_eq!(h.get_status(), 4);
    assert_eq!(h.stop(), -1);
}

#[test]
fn engine_failure_reports_network() {
    let mut h = EmissaryRouter::new();
    assert!(h.start_begin().is_ok());
    assert_eq!(h.start_fail(StartFailure::EngineConstruction), -6);
    assert_eq!(h.get_status(), 4);
}

#[test]
fn internal_failure_reports_generic() {
    let mut h = EmissaryRouter::new();
    assert!(h.start_begin().is_ok());
    assert_eq!(h.start_fail(StartFailure::Internal), -1);
    assert_eq!(h.get_status(), 4);
}

#[test]
fn second_start_is_refused() {
    let (tx, _rx) = shutdown_channel();
    let mut h = EmissaryRouter::new();

    assert!(h.start_begin().is_ok());
    assert_eq!(h.start_begin(), Err(-4));
    assert_eq!(h.get_status(), 1);

    assert_eq!(h.start_complete(Some(7656), Some(7655), tx), 0);
    assert_eq!(h.start_begin(), Err(-4));
    assert_eq!(h.get_status(), 2);
}

#[test]
fn start_on_faulted_handle_is_refused() {
    let mut h = EmissaryRouter::new();
    assert!(h.start_begin().is_ok());
    assert_eq!(h.start_fail(StartFailure::EngineConstruction), -6);
    assert_eq!(h.start_begin(), Err(-1));
    assert_eq!(h.get_status(), 4);
}

#[test]
fn start_while_stopping_is_refused() {
    let (tx, _rx) = shutdown_channel();
    let mut h = EmissaryRouter::new();
    assert!(h.start_begin().is_ok());
    assert_eq!(h.start_complete(None, None, tx), 0);
    assert!(matches!(h.stop_begin(), StopDecision::Signal(_)));
    assert_eq!(h.get_status(), 3);
    assert_eq!(h.start_begin(), Err(-1));
}

#[test]
fn stop_on_stopped_is_no_op() {
    let mut h = EmissaryRouter::new();
    assert_eq!(h.stop(), -5);
    assert_eq!(h.get_status(), 0);
    assert_eq!(h.stop(), -5);
    assert_eq!(h.get_status(), 0);
}

#[test]
fn stop_while_starting_reports_not_started() {
    let mut h = EmissaryRouter::new();
    assert!(h.start_begin().is_ok());
    assert_eq!(h.stop(), -5);
    assert_eq!(h.get_status(), 1);
}

#[test]
fn overlapping_stops_make_one_transition() {
    let (tx, mut rx) = shutdown_channel();
    let mut h = EmissaryRouter::new();
    assert!(h.start_begin().is_ok());
    assert_eq!(h.start_complete(Some(7656), Some(7655), tx), 0);

    // First stop takes the lock and captures the sender.
    let first = h.stop_begin();
    let sender = match first {
        StopDecision::Signal(sender) => sender,
        StopDecision::Done(code) => panic!("expected a signal, got code {code}"),
    };
    assert_eq!(h.get_status(), 3);

    // A second stop between the halves observes Stopping and succeeds
    // without a transition of its own.
    assert!(matches!(h.stop_begin(), StopDecision::Done(0)));
    assert_eq!(h.get_status(), 3);

    // The first stop sends its signal and quiesces the handle.
    sender.try_send(()).expect("single-slot channel accepts one signal");
    assert_eq!(h.stop_finish(), 0);
    assert_eq!(h.get_status(), 0);
    assert!(rx.try_recv().is_ok());
}

#[test]
fn partial_discovery_gates_bridge_availability() {
    let (tx, _rx) = shutdown_channel();
    let mut h = EmissaryRouter::new();
    assert!(h.start_begin().is_ok());
    assert_eq!(h.start_complete(Some(7656), None, tx), 0);
    assert_eq!(h.get_status(), 2);
    assert_eq!(h.sam_available(), 0);
    assert_eq!(h.get_sam_tcp_port(), 7656);
    assert_eq!(h.get_sam_udp_port(), 0);
}

#[test]
fn stale_ports_stay_readable_after_stop() {
    let (tx, _rx) = shutdown_channel();
    let mut h = EmissaryRouter::new();
    assert!(h.start_begin().is_ok());
    assert_eq!(h.start_complete(Some(7656), Some(7655), tx), 0);
    assert_eq!(h.stop(), 0);
    assert_eq!(h.sam_available(), 0);
    assert_eq!(h.get_sam_tcp_port(), 7656);
    assert_eq!(h.get_sam_udp_port(), 7655);
}

#[test]
fn port_code_reports_zero_for_unset() {
    assert_eq!(emissary_c::sam_port_code(None), 0);
    assert_eq!(emissary_c::sam_port_code(Some(1234)), 1234);
    assert_eq!(emissary_c::sam_port_code(Some(u16::MAX)), 65535);
}

#[test]
fn code_constants_keep_the_wire_surface() {
    assert_eq!(emissary_c::EMISSARY_SUCCESS, 0);
    assert_eq!(emissary_c::EMISSARY_ERROR_GENERIC, -1);
    assert_eq!(emissary_c::EMISSARY_ERROR_INVALID_PARAM, -2);
    assert_eq!(emissary_c::EMISSARY_ERROR_ALREADY_STARTED, -4);
    assert_eq!(emissary_c::EMISSARY_ERROR_NOT_STARTED, -5);
    assert_eq!(emissary_c::EMISSARY_ERROR_NETWORK, -6);
    assert_eq!(emissary_c::EMISSARY_ERROR_RESOURCE, -7);
    assert_eq!(emissary_c::EMISSARY_STATUS_STOPPED, 0);
    assert_eq!(emissary_c::EMISSARY_STATUS_STARTING, 1);
    assert_eq!(emissary_c::EMISSARY_STATUS_RUNNING, 2);
    assert_eq!(emissary_c::EMISSARY_STATUS_STOPPING, 3);
    assert_eq!(emissary_c::EMISSARY_STATUS_ERROR, 4);
}
