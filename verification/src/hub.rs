//! The broadcast hub: sole owner of the live subscriber set. It consumes
//! events — accepted messages, subscribe requests, unsubscribe requests —
//! and for each accepted message attempts a non-blocking delivery to every
//! registered subscriber before appending the message to the history.
use vstd::prelude::*;
use futures::channel::mpsc::Sender;
use crate::history::pushed;
use crate::history::HistoryBuffer;
use crate::msg::Message;

verus! {

/// One registered subscriber: an opaque identifier and the bounded channel
/// its messages are pushed into.
pub struct Subscription {
    pub id: u128,
    pub outbound: Sender<Message>,
}

/// The sole input alphabet of the hub: all mutation of the subscriber set
/// happens by consuming these.
pub enum Event {
    Message(Message),
    Subscribe(u128, Sender<Message>),
    Unsubscribe(u128),
}

/// No identifier registered twice.
pub open spec fn unique_ids(ids: Seq<u128>) -> bool {
    forall|i: int, j: int| 0 <= i < j < ids.len() ==> ids[i] != ids[j]
}

/// The subscriber list a subscribe request leaves behind: a new identifier
/// is appended; a request for an already-registered identifier replaces
/// that entry's channel and leaves the list unchanged.
pub open spec fn ids_after_subscribe(ids: Seq<u128>, id: u128) -> Seq<u128> {
    if ids.contains(id) {
        ids
    } else {
        ids.push(id)
    }
}

/// The subscriber list an unsubscribe request leaves behind: the entry is
/// removed if present; removing an absent identifier is a no-op.
pub open spec fn ids_after_unsubscribe(ids: Seq<u128>, id: u128) -> Seq<u128> {
    if ids.contains(id) {
        ids.remove(ids.index_of(id))
    } else {
        ids
    }
}

/// The subscriber list each event leaves behind: message events never touch
/// registration.
pub open spec fn ids_after_event(ids: Seq<u128>, event: Event) -> Seq<u128> {
    match event {
        Event::Message(_) => ids,
        Event::Subscribe(id, _) => ids_after_subscribe(ids, id),
        Event::Unsubscribe(id) => ids_after_unsubscribe(ids, id),
    }
}

/// The history each event leaves behind: only a message event touches it,
/// appending with capacity eviction.
pub open spec fn history_after_event(h: Seq<Message>, event: Event) -> Seq<Message> {
    match event {
        Event::Message(m) => pushed(h, m),
        Event::Subscribe(_, _) => h,
        Event::Unsubscribe(_) => h,
    }
}

/// The subscribers a fan-out actually reached, given the list of
/// registered identifiers and the per-subscriber delivery outcomes,
/// position by position.
pub open spec fn delivered_ids(ids: Seq<u128>, outcomes: Seq<bool>) -> Seq<u128>
    decreases ids.len(),
{
    if ids.len() == 0 {
        Seq::empty()
    } else {
        let prefix = delivered_ids(ids.drop_last(), outcomes.drop_last());
        if outcomes.len() > 0 && outcomes.last() {
            prefix.push(ids.last())
        } else {
            prefix
        }
    }
}

/// The hub's state: the live subscriber set, owned by nothing else.
pub struct BroadcastHub {
    subs: Vec<Subscription>,
}

impl BroadcastHub {
    /// The registered identifiers, in registration order.
    pub closed spec fn ids(&self) -> Seq<u128> {
        self.subs@.map_values(|s: Subscription| s.id)
    }

    /// No identifier registered twice.
    pub open spec fn wf(&self) -> bool {
        unique_ids(self.ids())
    }

    /// A hub with no subscribers, as the event loop starts with.
    pub fn new() -> (hub: BroadcastHub)
        ensures
            hub.ids() == Seq::<u128>::empty(),
            hub.wf(),
    {
        let hub = BroadcastHub { subs: Vec::new() };
        proof {
            assert(hub.ids() =~= Seq::<u128>::empty());
        }
        hub
    }

    /// How many subscribers are live.
    pub fn subscriber_count(&self) -> (n: usize)
        ensures
            n == self.ids().len(),
    {
        self.subs.len()
    }

    /// Where `id` is registered, if anywhere.
    fn find(&self, id: u128) -> (r: Option<usize>)
        ensures
            match r {
                Some(i) => i < self.subs@.len() && self.subs@[i as int].id == id,
                None => forall|k: int| 0 <= k < self.subs@.len() ==> self.subs@[k].id != id,
            },
    {
        let mut i: usize = 0;
        while i < self.subs.len()
            invariant
                i <= self.subs@.len(),
                forall|k: int| 0 <= k < i ==> self.subs@[k].id != id,
            decreases self.subs@.len() - i,
        {
            if self.subs[i].id == id {
                return Some(i);
            }
            i = i + 1;
        }
        None
    }

    /// Registers `(id, outbound)`. No replay happens here; that is the
    /// subscription port's business before it registers.
    pub fn subscribe(&mut self, id: u128, outbound: Sender<Message>)
        requires
            old(self).wf(),
        ensures
            final(self).ids() == ids_after_subscribe(old(self).ids(), id),
            final(self).wf(),
    {
        let found = self.find(id);
        match found {
            Some(i) => {
                self.subs[i] = Subscription { id, outbound };
                proof {
                    assert(old(self).ids().contains(id)) by {
                        assert(old(self).ids()[i as int] == id);
                    }
                    assert(self.ids() =~= old(self).ids());
                }
            },
            None => {
                self.subs.push(Subscription { id, outbound });
                proof {
                    assert(!old(self).ids().contains(id)) by {
                        assert(forall|k: int|
                            0 <= k < old(self).ids().len() ==> old(self).ids()[k] != id);
                    }
                    assert(self.ids() =~= old(self).ids().push(id));
                }
            },
        }
    }

    /// Removes `id` from the subscriber set if present; removing an absent
    /// identifier is a no-op, not an error.
    pub fn unsubscribe(&mut self, id: u128)
        requires
            old(self).wf(),
        ensures
            final(self).ids() == ids_after_unsubscribe(old(self).ids(), id),
            final(self).wf(),
    {
        let found = self.find(id);
        match found {
            Some(i) => {
                self.subs.remove(i);
                proof {
                    let oids = old(self).ids();
                    assert(oids.contains(id)) by {
                        assert(oids[i as int] == id);
                    }
                    let c = oids.index_of(id);
                    assert(0 <= c < oids.len() && oids[c] == id);
                    assert(c == i as int) by {
                        if c < i as int {
                            assert(oids[c] != oids[i as int]);
                        } else if c > i as int {
                            assert(oids[i as int] != oids[c]);
                        }
                    }
                    assert(self.ids() =~= oids.remove(i as int));
                    assert(unique_ids(self.ids())) by {
                        assert(forall|k: int, l: int|
                            0 <= k < l < self.ids().len() ==> self.ids()[k] != self.ids()[l]);
                    }
                }
            },
            None => {
                proof {
                    assert(!old(self).ids().contains(id)) by {
                        assert(forall|k: int|
                            0 <= k < old(self).ids().len() ==> old(self).ids()[k] != id);
                    }
                }
            },
        }
    }

    /// Attempts a non-blocking delivery of `m` to every registered
    /// subscriber, in registration order, never waiting on a full or
    /// closed channel. `outcomes[i]` reports whether the send to the
    /// `i`-th subscriber was accepted; a failure neither stops the
    /// fan-out nor touches any registration.
    pub fn fan_out(&mut self, m: &Message) -> (outcomes: Vec<bool>)
        requires
            old(self).wf(),
        ensures
            final(self).ids() == old(self).ids(),
            final(self).wf(),
            outcomes@.len() == old(self).ids().len(),
    {
        let mut outcomes: Vec<bool> = Vec::new();
        let mut i: usize = 0;
        while i < self.subs.len()
            invariant
                i <= self.subs@.len(),
                self.subs@.len() == old(self).subs@.len(),
                forall|k: int|
                    0 <= k < self.subs@.len() ==> self.subs@[k].id == old(self).subs@[k].id,
                outcomes@.len() == i,
            decreases self.subs@.len() - i,
        {
            let entry = &mut self.subs[i];
            let ok = crate::channel::try_send_message(&mut entry.outbound, m.clone());
            outcomes.push(ok);
            i = i + 1;
        }
        proof {
            assert(self.ids() =~= old(self).ids());
        }
        outcomes
    }

    /// Consumes one event: a message is fanned out to every subscriber and
    /// then appended to the history; subscribe and unsubscribe requests
    /// mutate only the subscriber set. No event ever fails the loop.
    /// For a message event, `outcomes` reports the per-subscriber delivery
    /// outcomes in registration order; for the others it is empty.
    pub fn handle_event(&mut self, history: &mut HistoryBuffer, event: Event) -> (outcomes: Vec<
        bool,
    >)
        requires
            old(self).wf(),
            old(history).wf(),
        ensures
            final(self).wf(),
            final(history).wf(),
            final(self).ids() == ids_after_event(old(self).ids(), event),
            final(history)@ == history_after_event(old(history)@, event),
            outcomes@.len() == (match event {
                Event::Message(_) => old(self).ids().len(),
                Event::Subscribe(_, _) => 0,
                Event::Unsubscribe(_) => 0,
            }),
    {
        match event {
            Event::Message(m) => {
                let outcomes = self.fan_out(&m);
                history.push(m);
                outcomes
            },
            Event::Subscribe(id, outbound) => {
                self.subscribe(id, outbound);
                Vec::new()
            },
            Event::Unsubscribe(id) => {
                self.unsubscribe(id);
                Vec::new()
            },
        }
    }
}

} // verus!
