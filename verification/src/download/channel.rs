//! Message-passing endpoints used between the controller and its workers.
//!
//! The queues themselves come from tokio's unbounded mpsc channels; the
//! declarations and wrappers here are the only places where those calls are
//! taken on trust.  Nothing can be promised about what a queue holds, so the
//! wrappers state nothing beyond their signatures; every decision made on a
//! received value lives in verified code.

use vstd::prelude::*;

verus! {

#[verifier::external_type_specification]
#[verifier::external_body]
#[verifier::reject_recursive_types(T)]
pub struct ExUnboundedSender<T>(tokio::sync::mpsc::UnboundedSender<T>);

#[verifier::external_type_specification]
#[verifier::external_body]
#[verifier::reject_recursive_types(T)]
pub struct ExUnboundedReceiver<T>(tokio::sync::mpsc::UnboundedReceiver<T>);

/// Relies on tokio::sync::mpsc::unbounded_channel: returns the sending and
/// receiving endpoints of one fresh, initially empty queue.
#[verifier::external_body]
pub fn unbounded_pair<T>() -> (
    tokio::sync::mpsc::UnboundedSender<T>,
    tokio::sync::mpsc::UnboundedReceiver<T>,
) {
    tokio::sync::mpsc::unbounded_channel()
}

/// Relies on `<UnboundedSender as Clone>::clone`: yields another handle that
/// feeds the same queue.
#[verifier::external_body]
pub fn clone_sender<T>(
    tx: &tokio::sync::mpsc::UnboundedSender<T>,
) -> tokio::sync::mpsc::UnboundedSender<T> {
    tx.clone()
}

/// Relies on UnboundedSender::send: queues the value for the receiver; the
/// call fails only when the receiving endpoint has been dropped, and the
/// result reports which of the two happened.
#[verifier::external_body]
pub fn send_on<T>(tx: &tokio::sync::mpsc::UnboundedSender<T>, value: T) -> bool {
    tx.send(value).is_ok()
}

/// Hand a batch of status events to the controller, in order.  Whether each
/// reaches it depends on the receiving endpoint still being alive, which no
/// contract here can promise; the result says whether every send was
/// accepted.
pub fn emit_all(
    tx: &tokio::sync::mpsc::UnboundedSender<crate::download::controller::Message>,
    events: &Vec<crate::download::controller::Message>,
) -> (all_accepted: bool) {
    let mut i: usize = 0;
    let mut ok = true;
    while i < events.len()
        invariant
            i <= events@.len(),
        decreases events@.len() - i,
    {
        let accepted = send_on(tx, events[i]);
        ok = ok && accepted;
        i = i + 1;
    }
    ok
}

} // verus!
