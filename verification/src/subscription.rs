//! The subscription port: a joining consumer gets a fresh identifier and a
//! replay of the current history into its newly created outbound channel,
//! before the hub is asked to register it for live delivery.
use vstd::prelude::*;
use futures::channel::mpsc::Sender;
use crate::history::HistoryBuffer;
use crate::msg::Message;

verus! {

/// Replays a point-in-time snapshot of the history into `outbound`,
/// oldest-first, with non-blocking sends: a full channel drops the entry
/// rather than making the caller wait. `outcomes[i]` reports whether the
/// `i`-th snapshot entry was accepted, and returns a fresh subscription
/// identifier for the caller to register with the hub.
pub fn open_subscription(history: &HistoryBuffer, outbound: &mut Sender<Message>) -> (r: (
    u128,
    Vec<bool>,
))
    requires
        history.wf(),
    ensures
        r.1@.len() == history@.len(),
{
    let snap = history.snapshot();
    let mut outcomes: Vec<bool> = Vec::new();
    let mut i: usize = 0;
    while i < snap.len()
        invariant
            i <= snap@.len(),
            outcomes@.len() == i,
        decreases snap@.len() - i,
    {
        let ok = crate::channel::try_send_message(outbound, snap[i].clone());
        outcomes.push(ok);
        i = i + 1;
    }
    let id: u128 = crate::msg::fresh_id();
    (id, outcomes)
}

} // verus!
