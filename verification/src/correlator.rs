//! Call correlation: fresh ids for outgoing calls, a pending-call table
//! keyed by id, and the routing of each incoming response to the one
//! caller that issued its id.
//!
//! The correlator is the only state shared between the call-issuing path
//! and the reader path; a caller is represented by a response slot of any
//! type `S` (a one-shot channel sender in a live session, a plain token
//! in tests), and the correlator never confuses two slots.

use vstd::prelude::*;

verus! {

/// The slot registered under `id`, if any: the first entry that carries
/// the id. A well-formed table has at most one.
pub open spec fn slot_in<S>(es: Seq<(u64, S)>, id: u64) -> Option<S>
    decreases es.len(),
{
    if es.len() == 0 {
        None
    } else if es[0].0 == id {
        Some(es[0].1)
    } else {
        slot_in(es.drop_first(), id)
    }
}

/// The table with the first entry carrying `id` removed.
pub open spec fn remove_id<S>(es: Seq<(u64, S)>, id: u64) -> Seq<(u64, S)>
    decreases es.len(),
{
    if es.len() == 0 {
        es
    } else if es[0].0 == id {
        es.drop_first()
    } else {
        seq![es[0]] + remove_id(es.drop_first(), id)
    }
}

/// What registering a slot came to.
pub enum RegisterOutcome<S> {
    /// The slot now waits under its id.
    Registered,
    /// The session is broken; the slot is handed back so the caller can
    /// be failed with a connection-closed error.
    Closed(S),
    /// Another slot already waits under this id; the slot is handed back.
    Duplicate(S),
}

/// Assigns ids, keeps the pending-call table, and routes responses.
pub struct Correlator<S> {
    /// The id the next call will get; every id below it has been issued.
    pub counter: u64,
    /// One entry per in-flight call: its id and its caller's slot.
    pub pending: Vec<(u64, S)>,
    /// Set when the session broke: no further call can register.
    pub closed: bool,
    /// How many responses arrived for ids nobody was waiting on.
    pub anomalies: u64,
    /// Every id ever issued.
    pub issued: Ghost<Set<u64>>,
}

/// One issue of a fresh id: the id was never issued before, is recorded
/// as issued, and the counter moves past it.
pub open spec fn issue_step<S>(pre: Correlator<S>, post: Correlator<S>, id: u64) -> bool {
    &&& id == pre.counter
    &&& !pre.issued@.contains(id)
    &&& post.issued@ == pre.issued@.insert(id)
    &&& post.counter == pre.counter + 1
    &&& post.pending@ == pre.pending@
    &&& post.closed == pre.closed
    &&& post.anomalies == pre.anomalies
}

impl<S> Correlator<S> {
    /// The table is sound: ids pending are pairwise distinct, and every
    /// id issued so far lies below the counter.
    pub open spec fn wf(&self) -> bool {
        &&& forall|i: int, j: int|
            0 <= i < j < self.pending@.len() ==> self.pending@[i].0 != self.pending@[j].0
        &&& forall|id: u64| self.issued@.contains(id) ==> id < self.counter
    }

    /// A correlator with no calls issued and nothing pending.
    pub fn new() -> (r: Correlator<S>)
        ensures
            r.wf(),
            r.counter == 0,
            r.pending@.len() == 0,
            !r.closed,
            r.anomalies == 0,
            r.issued@ == Set::<u64>::empty(),
    {
        Correlator {
            counter: 0,
            pending: Vec::new(),
            closed: false,
            anomalies: 0,
            issued: Ghost(Set::empty()),
        }
    }

    /// Issue a fresh id, unique among all ids this correlator ever
    /// issued; `None` only once the id space is exhausted.
    pub fn next_id(&mut self) -> (r: Option<u64>)
        requires
            old(self).wf(),
        ensures
            final(self).wf(),
            old(self).counter < u64::MAX ==> (r matches Some(id) && issue_step(
                *old(self),
                *final(self),
                id,
            )),
            old(self).counter == u64::MAX ==> r is None && *final(self) == *old(self),
    {
        if self.counter == u64::MAX {
            return None;
        }
        let id = self.counter;
        self.counter = self.counter + 1;
        proof {
            self.issued@ = self.issued@.insert(id);
        }
        Some(id)
    }

    /// Register `slot` to wait under `id`. The slot comes back at once
    /// when the session is already broken, or when some slot already
    /// waits under that id.
    pub fn register(&mut self, id: u64, slot: S) -> (r: RegisterOutcome<S>)
        requires
            old(self).wf(),
        ensures
            final(self).wf(),
            old(self).closed ==> (r matches RegisterOutcome::Closed(s) && s == slot && *final(self)
                == *old(self)),
            !old(self).closed && slot_in(old(self).pending@, id) is Some ==> (r
                matches RegisterOutcome::Duplicate(s) && s == slot && *final(self) == *old(self)),
            !old(self).closed && slot_in(old(self).pending@, id) is None ==> (r
                matches RegisterOutcome::Registered && final(self).pending@ == old(
                self,
            ).pending@.push((id, slot)) && final(self).counter == old(self).counter
                && final(self).closed == old(self).closed
                && final(self).anomalies == old(self).anomalies
                && final(self).issued == old(self).issued),
    {
        if self.closed {
            return RegisterOutcome::Closed(slot);
        }
        let n = self.pending.len();
        for i in 0..n
            invariant
                n == self.pending.len(),
                forall|j: int| 0 <= j < i ==> self.pending@[j].0 != id,
                *self == *old(self),
                self.wf(),
                !self.closed,
        {
            if self.pending[i].0 == id {
                proof {
                    lemma_slot_in_first_match(self.pending@, id, i as int);
                }
                return RegisterOutcome::Duplicate(slot);
            }
        }
        proof {
            lemma_slot_in_none(self.pending@, id);
        }
        self.pending.push((id, slot));
        RegisterOutcome::Registered
    }

    /// Take the slot waiting under `id` out of the table; a response for
    /// an id nobody waits on leaves the table unchanged and is counted as
    /// a protocol anomaly.
    pub fn take(&mut self, id: u64) -> (r: Option<S>)
        requires
            old(self).wf(),
        ensures
            final(self).wf(),
            r == slot_in(old(self).pending@, id),
            r is Some ==> final(self).pending@ == remove_id(old(self).pending@, id)
                && final(self).anomalies == old(self).anomalies,
            r is None ==> final(self).pending@ == old(self).pending@ && final(self).anomalies == (
            if old(self).anomalies < u64::MAX {
                old(self).anomalies + 1
            } else {
                old(self).anomalies as int
            }),
            final(self).counter == old(self).counter,
            final(self).closed == old(self).closed,
            final(self).issued == old(self).issued,
    {
        let n = self.pending.len();
        for i in 0..n
            invariant
                n == self.pending.len(),
                forall|j: int| 0 <= j < i ==> self.pending@[j].0 != id,
                *self == *old(self),
                self.wf(),
        {
            if self.pending[i].0 == id {
                proof {
                    lemma_slot_in_first_match(self.pending@, id, i as int);
                    lemma_remove_id_at(self.pending@, id, i as int);
                }
                let ghost pre = self.pending@;
                let entry = self.pending.remove(i);
                proof {
                    pre.remove_ensures(i as int);
                    assert forall|p: int, q: int|
                        0 <= p < q < self.pending@.len() implies self.pending@[p].0
                        != self.pending@[q].0 by {
                        assert(self.pending@[p] == if p < i {
                            pre[p]
                        } else {
                            pre[p + 1]
                        });
                        assert(self.pending@[q] == if q < i {
                            pre[q]
                        } else {
                            pre[q + 1]
                        });
                    }
                }
                return Some(entry.1);
            }
        }
        proof {
            lemma_slot_in_none(self.pending@, id);
        }
        if self.anomalies < u64::MAX {
            self.anomalies = self.anomalies + 1;
        }
        None
    }

    /// Break the session: every pending call's slot is handed back, in
    /// table order, so each can be failed with a connection-closed error,
    /// and no call can register afterwards.
    pub fn close(&mut self) -> (dropped: Vec<(u64, S)>)
        requires
            old(self).wf(),
        ensures
            final(self).wf(),
            final(self).closed,
            final(self).pending@.len() == 0,
            dropped@ == old(self).pending@,
            final(self).counter == old(self).counter,
            final(self).anomalies == old(self).anomalies,
            final(self).issued == old(self).issued,
    {
        self.closed = true;
        let mut dropped: Vec<(u64, S)> = Vec::new();
        core::mem::swap(&mut dropped, &mut self.pending);
        dropped
    }

    /// Whether the session broke.
    pub fn is_closed(&self) -> (r: bool)
        ensures
            r == self.closed,
    {
        self.closed
    }

    /// How many calls are in flight.
    pub fn pending_count(&self) -> (r: usize)
        ensures
            r == self.pending@.len(),
    {
        self.pending.len()
    }

    /// How many responses arrived for unknown ids.
    pub fn anomaly_count(&self) -> (r: u64)
        ensures
            r == self.anomalies,
    {
        self.anomalies
    }
}

/// A lookup finds the slot of the first entry carrying the id.
proof fn lemma_slot_in_first_match<S>(es: Seq<(u64, S)>, id: u64, i: int)
    requires
        0 <= i < es.len(),
        forall|j: int| 0 <= j < i ==> es[j].0 != id,
        es[i].0 == id,
    ensures
        slot_in(es, id) == Some(es[i].1),
    decreases i,
{
    if i > 0 {
        assert(forall|j: int|
            0 <= j < i - 1 ==> es.drop_first()[j] == es[j + 1] && es[j + 1].0 != id);
        lemma_slot_in_first_match(es.drop_first(), id, i - 1);
    }
}

/// A lookup over entries none of which carries the id finds nothing.
proof fn lemma_slot_in_none<S>(es: Seq<(u64, S)>, id: u64)
    requires
        forall|j: int| 0 <= j < es.len() ==> es[j].0 != id,
    ensures
        slot_in(es, id) is None,
    decreases es.len(),
{
    if es.len() > 0 {
        assert(forall|j: int|
            0 <= j < es.len() - 1 ==> es.drop_first()[j] == es[j + 1] && es[j + 1].0 != id);
        lemma_slot_in_none(es.drop_first(), id);
    }
}

/// Removing an id removes exactly the first entry that carries it.
proof fn lemma_remove_id_at<S>(es: Seq<(u64, S)>, id: u64, i: int)
    requires
        0 <= i < es.len(),
        forall|j: int| 0 <= j < i ==> es[j].0 != id,
        es[i].0 == id,
    ensures
        remove_id(es, id) == es.remove(i),
    decreases i,
{
    if i == 0 {
        assert(remove_id(es, id) == es.drop_first());
        assert(es.drop_first() =~= es.remove(0));
    } else {
        assert(forall|j: int|
            0 <= j < i - 1 ==> es.drop_first()[j] == es[j + 1] && es[j + 1].0 != id);
        lemma_remove_id_at(es.drop_first(), id, i - 1);
        assert(seq![es[0]] + es.drop_first().remove(i - 1) =~= es.remove(i));
    }
}

/// The counter only grows along a run of issue steps.
proof fn lemma_counter_monotone<S>(states: Seq<Correlator<S>>, ids: Seq<u64>, a: int, b: int)
    requires
        states.len() == ids.len() + 1,
        forall|k: int| 0 <= k < ids.len() ==> #[trigger] issue_step(states[k], states[k + 1], ids[k]),
        0 <= a <= b < states.len(),
    ensures
        states[a].counter <= states[b].counter,
    decreases b - a,
{
    if a < b {
        lemma_counter_monotone(states, ids, a, b - 1);
        let k = b - 1;
        assert(issue_step(states[k], states[k + 1], ids[k]));
    }
}

/// Id uniqueness: along any run of issued calls, the ids handed out are
/// pairwise distinct — no two callers ever share an id — and they come
/// out in strictly increasing order.
pub proof fn lemma_issued_ids_distinct<S>(states: Seq<Correlator<S>>, ids: Seq<u64>)
    requires
        states.len() == ids.len() + 1,
        forall|k: int| 0 <= k < ids.len() ==> #[trigger] issue_step(states[k], states[k + 1], ids[k]),
    ensures
        forall|j: int, k: int| 0 <= j < k < ids.len() ==> ids[j] < ids[k],
        forall|j: int, k: int| 0 <= j < k < ids.len() ==> ids[j] != ids[k],
{
    assert forall|j: int, k: int| 0 <= j < k < ids.len() implies ids[j] < ids[k] by {
        assert(issue_step(states[j], states[j + 1], ids[j]));
        assert(issue_step(states[k], states[k + 1], ids[k]));
        lemma_counter_monotone(states, ids, j + 1, k);
        assert(ids[j] < states[j + 1].counter);
        assert(states[j + 1].counter <= states[k].counter);
    }
}

/// Correlation: in a well-formed table, looking any pending id up yields
/// exactly the slot registered under that id — responses are routed by
/// id, never by arrival order.
pub proof fn lemma_route_by_id<S>(c: Correlator<S>, k: int)
    requires
        c.wf(),
        0 <= k < c.pending@.len(),
    ensures
        slot_in(c.pending@, c.pending@[k].0) == Some(c.pending@[k].1),
{
    assert(forall|j: int| 0 <= j < k ==> c.pending@[j].0 != c.pending@[k].0);
    lemma_slot_in_first_match(c.pending@, c.pending@[k].0, k);
}

/// Correlation, the other direction: taking one id's slot out of a table
/// removes no other caller's entry — every entry with a different id is
/// still pending afterwards.
pub proof fn lemma_take_leaves_others<S>(es: Seq<(u64, S)>, id: u64, k: int)
    requires
        0 <= k < es.len(),
        es[k].0 != id,
    ensures
        remove_id(es, id).contains(es[k]),
    decreases es.len(),
{
    if es[0].0 == id {
        assert(es.drop_first()[k - 1] == es[k]);
        assert(remove_id(es, id)[k - 1] == es[k]);
    } else {
        let rest = remove_id(es.drop_first(), id);
        if k == 0 {
            assert((seq![es[0]] + rest)[0] == es[0]);
        } else {
            assert(es.drop_first()[k - 1] == es[k]);
            lemma_take_leaves_others(es.drop_first(), id, k - 1);
            let j = choose|j: int| 0 <= j < rest.len() && rest[j] == es[k];
            assert((seq![es[0]] + rest)[j + 1] == es[k]);
        }
    }
}

/// Closed-connection fan-out: breaking the session hands back the slot
/// of every call that was pending at that moment.
pub proof fn lemma_close_fans_out<S>(pre: Correlator<S>, dropped: Seq<(u64, S)>, k: int)
    requires
        dropped == pre.pending@,
        0 <= k < pre.pending@.len(),
    ensures
        dropped.contains(pre.pending@[k]),
{
    assert(dropped[k] == pre.pending@[k]);
}

} // verus!
