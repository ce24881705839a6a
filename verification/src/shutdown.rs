//! Cooperative cancellation: the single-slot shutdown channel.
//!
//! A stop only guarantees that the signal was sent, not that teardown has
//! finished; the supervising task races the signal against the engine's own
//! completion on the embedding side.

use vstd::prelude::*;

verus! {

/// Declares the sending half of a bounded channel so that the `Running`
/// state can own one; the value is opaque and only carried through.
#[verifier::external_type_specification]
#[verifier::external_body]
#[verifier::reject_recursive_types(T)]
pub struct ExMpscSender<T>(tokio::sync::mpsc::Sender<T>);

/// Relies on tokio::sync::mpsc::Sender::try_send: a non-blocking,
/// best-effort send whose outcome (delivered, channel full, or channel
/// closed) is deliberately ignored, as cooperative cancellation wants.
#[verifier::external_body]
pub(crate) fn send_stop_signal(shutdown_tx: &tokio::sync::mpsc::Sender<()>) {
    let _ = shutdown_tx.try_send(());
}

} // verus!
