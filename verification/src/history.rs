//! Bounded FIFO store of recent messages: oldest-first, fixed capacity; on
//! overflow the oldest entry is evicted before the newest is appended.
use vstd::prelude::*;
use crate::msg::Message;
use crate::HISTORY_CAPACITY;

verus! {

/// The recent-message store. Its length never exceeds
/// [`HISTORY_CAPACITY`]; entries leave only by capacity eviction.
pub struct HistoryBuffer {
    entries: Vec<Message>,
}

/// What one push leaves behind: the message is appended, after the single
/// oldest entry is evicted if the buffer stands at capacity.
pub open spec fn pushed(s: Seq<Message>, m: Message) -> Seq<Message> {
    if s.len() < HISTORY_CAPACITY as int {
        s.push(m)
    } else {
        s.subrange(1, s.len() as int).push(m)
    }
}

/// What a whole run of pushes leaves behind, first element of `ms` pushed
/// first.
pub open spec fn pushed_all(s: Seq<Message>, ms: Seq<Message>) -> Seq<Message>
    decreases ms.len(),
{
    if ms.len() == 0 {
        s
    } else {
        pushed_all(pushed(s, ms[0]), ms.drop_first())
    }
}

impl View for HistoryBuffer {
    type V = Seq<Message>;

    closed spec fn view(&self) -> Seq<Message> {
        self.entries@
    }
}

impl HistoryBuffer {
    /// The capacity bound holds.
    pub open spec fn wf(self) -> bool {
        self@.len() <= HISTORY_CAPACITY as int
    }

    /// An empty buffer, as the process starts with.
    pub fn new() -> (b: HistoryBuffer)
        ensures
            b@ == Seq::<Message>::empty(),
            b.wf(),
    {
        HistoryBuffer { entries: Vec::new() }
    }

    /// How many messages are currently held.
    pub fn len(&self) -> (n: usize)
        ensures
            n == self@.len(),
    {
        self.entries.len()
    }

    /// Appends `m`; if the buffer stands at capacity, the single oldest
    /// entry is evicted first. Never fails.
    pub fn push(&mut self, m: Message)
        requires
            old(self).wf(),
        ensures
            final(self)@ == pushed(old(self)@, m),
            final(self).wf(),
    {
        if self.entries.len() >= HISTORY_CAPACITY {
            self.entries.remove(0);
        }
        self.entries.push(m);
    }

    /// A point-in-time copy of the buffer, oldest-first; the buffer itself
    /// is untouched.
    pub fn snapshot(&self) -> (v: Vec<Message>)
        ensures
            v@ == self@,
    {
        let mut v: Vec<Message> = Vec::new();
        let mut i: usize = 0;
        while i < self.entries.len()
            invariant
                i <= self.entries@.len(),
                v@ == self.entries@.subrange(0, i as int),
            decreases self.entries@.len() - i,
        {
            v.push(self.entries[i].clone());
            i = i + 1;
            proof {
                assert(v@ =~= self.entries@.subrange(0, i as int));
            }
        }
        proof {
            assert(v@ =~= self@);
        }
        v
    }
}

/// However many messages are pushed, the capacity bound keeps holding.
pub proof fn lemma_capacity_invariant(s: Seq<Message>, ms: Seq<Message>)
    requires
        s.len() <= HISTORY_CAPACITY as int,
    ensures
        pushed_all(s, ms).len() <= HISTORY_CAPACITY as int,
    decreases ms.len(),
{
    if ms.len() > 0 {
        lemma_capacity_invariant(pushed(s, ms[0]), ms.drop_first());
    }
}

/// After any run of pushes, the buffer holds exactly the most recent
/// [`HISTORY_CAPACITY`] of all messages ever pushed, in arrival order:
/// the last `min(capacity, total)` elements of `s + ms`.
pub proof fn lemma_retains_most_recent(s: Seq<Message>, ms: Seq<Message>)
    requires
        s.len() <= HISTORY_CAPACITY as int,
    ensures
        ({
            let all = s + ms;
            let kept = if all.len() <= HISTORY_CAPACITY as int {
                all.len() as int
            } else {
                HISTORY_CAPACITY as int
            };
            pushed_all(s, ms) =~= all.subrange(all.len() - kept, all.len() as int)
        }),
    decreases ms.len(),
{
    let all = s + ms;
    if ms.len() == 0 {
        assert(pushed_all(s, ms) == s);
        assert(all =~= s);
    } else {
        let s1 = pushed(s, ms[0]);
        lemma_retains_most_recent(s1, ms.drop_first());
        assert(s1 + ms.drop_first() =~= all.subrange(
            if s.len() < HISTORY_CAPACITY as int { 0 } else { 1 },
            all.len() as int,
        ));
        let all1 = s1 + ms.drop_first();
        let kept1 = if all1.len() <= HISTORY_CAPACITY as int {
            all1.len() as int
        } else {
            HISTORY_CAPACITY as int
        };
        let kept = if all.len() <= HISTORY_CAPACITY as int {
            all.len() as int
        } else {
            HISTORY_CAPACITY as int
        };
        assert(pushed_all(s, ms) =~= all1.subrange(all1.len() - kept1, all1.len() as int));
        assert(all1.subrange(all1.len() - kept1, all1.len() as int) =~= all.subrange(
            all.len() - kept,
            all.len() as int,
        ));
    }
}

} // verus!
