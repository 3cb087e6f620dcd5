//! The laws of the relay's fan-out and registration model, proved over the
//! spec-level transitions that the hub's contracts are stated with.
use vstd::prelude::*;
use crate::hub::delivered_ids;
use crate::hub::ids_after_event;
use crate::hub::ids_after_unsubscribe;
use crate::hub::unique_ids;
use crate::hub::Event;
use crate::msg::Message;

verus! {

/// Fan-out order across two messages: a message event never touches
/// registration, so subscribers registered when `m1` is processed are
/// still registered, in the same relative order, when `m2` is processed
/// next — each fan-out attempts delivery to the same subscribers in the
/// same order, `m1`'s before `m2`'s.
pub proof fn lemma_fan_out_order(ids: Seq<u128>, m1: Message, m2: Message)
    ensures
        ids_after_event(ids, Event::Message(m1)) == ids,
        ids_after_event(ids_after_event(ids, Event::Message(m1)), Event::Message(m2)) == ids,
{
}

/// Unsubscribe effect: removing a registered subscriber shrinks the live
/// set by exactly one, the removed identifier is no longer registered, so
/// a message event after the removal attempts no delivery to it, and
/// every other subscriber's registration is untouched.
pub proof fn lemma_unsubscribe_effect(ids: Seq<u128>, id: u128)
    requires
        unique_ids(ids),
        ids.contains(id),
    ensures
        ids_after_unsubscribe(ids, id).len() == ids.len() - 1,
        !ids_after_unsubscribe(ids, id).contains(id),
        forall|x: u128|
            x != id ==> (#[trigger] ids_after_unsubscribe(ids, id).contains(x) <==> ids.contains(
                x,
            )),
{
    let c = ids.index_of(id);
    assert(0 <= c < ids.len() && ids[c] == id);
    let after = ids.remove(c);
    ids.remove_ensures(c);
    assert(!after.contains(id)) by {
        assert forall|k: int| 0 <= k < after.len() implies after[k] != id by {
            if k < c {
                assert(after[k] == ids[k]);
                assert(ids[k] != ids[c]);
            } else {
                assert(after[k] == ids[k + 1]);
                assert(ids[c] != ids[k + 1]);
            }
        }
    }
    assert forall|x: u128| x != id && after.contains(x) implies ids.contains(x) by {
        let k = choose|k: int| 0 <= k < after.len() && after[k] == x;
        if k < c {
            assert(ids[k] == x);
        } else {
            assert(ids[k + 1] == x);
        }
    }
    assert forall|x: u128| x != id && ids.contains(x) implies after.contains(x) by {
        let k = choose|k: int| 0 <= k < ids.len() && ids[k] == x;
        if k < c {
            assert(after[k] == x);
        } else {
            assert(k != c);
            assert(after[k - 1] == x);
        }
    }
}

/// Every delivery goes to a registered subscriber: an identifier the
/// fan-out reached stands in the subscriber list.
pub proof fn lemma_delivered_are_registered(ids: Seq<u128>, outcomes: Seq<bool>)
    requires
        outcomes.len() == ids.len(),
    ensures
        forall|x: u128| #[trigger]
            delivered_ids(ids, outcomes).contains(x) ==> ids.contains(x),
    decreases ids.len(),
{
    if ids.len() > 0 {
        lemma_delivered_are_registered(ids.drop_last(), outcomes.drop_last());
        let d = delivered_ids(ids, outcomes);
        let dp = delivered_ids(ids.drop_last(), outcomes.drop_last());
        assert forall|x: u128| #[trigger] d.contains(x) implies ids.contains(x) by {
            let k = choose|k: int| 0 <= k < d.len() && d[k] == x;
            if outcomes.last() && k == d.len() - 1 {
                assert(ids[ids.len() - 1] == x);
            } else {
                assert(dp[k] == x);
                assert(dp.contains(x));
                assert(ids.drop_last().contains(x));
                let j = choose|j: int| 0 <= j < ids.drop_last().len() && ids.drop_last()[j] == x;
                assert(ids[j] == x);
            }
        }
    }
}

/// A subscriber whose channel accepted the send is among the delivered:
/// delivery is dropped only where the outcome was a failure.
pub proof fn lemma_accepted_is_delivered(ids: Seq<u128>, outcomes: Seq<bool>, i: int)
    requires
        outcomes.len() == ids.len(),
        0 <= i < ids.len(),
        outcomes[i],
    ensures
        delivered_ids(ids, outcomes).contains(ids[i]),
    decreases ids.len(),
{
    let d = delivered_ids(ids, outcomes);
    let dp = delivered_ids(ids.drop_last(), outcomes.drop_last());
    if i == ids.len() - 1 {
        assert(d[d.len() - 1] == ids[i]);
    } else {
        lemma_accepted_is_delivered(ids.drop_last(), outcomes.drop_last(), i);
        let k = choose|k: int| 0 <= k < dp.len() && dp[k] == ids.drop_last()[i];
        assert(ids.drop_last()[i] == ids[i]);
        assert(d[k] == ids[i]);
    }
}

/// Fan-out order, no-drop case: when every subscriber's channel accepts,
/// the delivered identifiers are exactly the registered ones, in
/// registration order — every registered subscriber receives the message.
pub proof fn lemma_full_fan_out_in_order(ids: Seq<u128>, outcomes: Seq<bool>)
    requires
        outcomes.len() == ids.len(),
        forall|i: int| 0 <= i < outcomes.len() ==> outcomes[i],
    ensures
        delivered_ids(ids, outcomes) == ids,
    decreases ids.len(),
{
    if ids.len() == 0 {
        assert(delivered_ids(ids, outcomes) =~= ids);
    } else {
        lemma_full_fan_out_in_order(ids.drop_last(), outcomes.drop_last());
        assert(outcomes.last());
        assert(delivered_ids(ids, outcomes) =~= ids);
    }
}

/// Every delivered entry has a source position in the subscriber list.
proof fn lemma_delivered_source(ids: Seq<u128>, outcomes: Seq<bool>, i: int)
    requires
        outcomes.len() == ids.len(),
        0 <= i < delivered_ids(ids, outcomes).len(),
    ensures
        exists|k: int|
            0 <= k < ids.len() && ids[k] == delivered_ids(ids, outcomes)[i],
    decreases ids.len(),
{
    let d = delivered_ids(ids, outcomes);
    let dp = delivered_ids(ids.drop_last(), outcomes.drop_last());
    if outcomes.len() > 0 && outcomes.last() && i == d.len() - 1 {
        assert(ids[ids.len() - 1] == d[i]);
    } else {
        lemma_delivered_source(ids.drop_last(), outcomes.drop_last(), i);
        let k = choose|k: int|
            0 <= k < ids.drop_last().len() && ids.drop_last()[k] == dp[i];
        assert(d[i] == dp[i]);
        assert(ids[k] == d[i]);
    }
}

/// A drop never reorders, it only omits: two delivered entries stand in
/// the same relative order in which their subscribers are registered.
pub proof fn lemma_drop_never_reorders(ids: Seq<u128>, outcomes: Seq<bool>, i: int, j: int)
    requires
        outcomes.len() == ids.len(),
        0 <= i < j < delivered_ids(ids, outcomes).len(),
    ensures
        exists|k: int, l: int|
            0 <= k < l < ids.len() && ids[k] == delivered_ids(ids, outcomes)[i] && ids[l]
                == delivered_ids(ids, outcomes)[j],
    decreases ids.len(),
{
    let d = delivered_ids(ids, outcomes);
    let dp = delivered_ids(ids.drop_last(), outcomes.drop_last());
    if outcomes.last() && j == d.len() - 1 {
        let l = ids.len() - 1;
        assert(ids[l] == d[j]);
        lemma_delivered_source(ids.drop_last(), outcomes.drop_last(), i);
        let k = choose|k: int|
            0 <= k < ids.drop_last().len() && ids.drop_last()[k] == dp[i];
        assert(d[i] == dp[i]);
        assert(0 <= k < l && ids[k] == d[i] && ids[l] == d[j]);
    } else {
        lemma_drop_never_reorders(ids.drop_last(), outcomes.drop_last(), i, j);
        let (k, l) = choose|k: int, l: int|
            0 <= k < l < ids.drop_last().len() && ids.drop_last()[k] == dp[i]
                && ids.drop_last()[l] == dp[j];
        assert(d[i] == dp[i] && d[j] == dp[j]);
        assert(0 <= k < l < ids.len() && ids[k] == d[i] && ids[l] == d[j]);
    }
}

} // verus!
