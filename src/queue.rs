use vstd::prelude::*;
use std::collections::VecDeque;

verus! {

/// Which downstream views must recompute. Signals merge by union.
#[derive(Debug, Clone, Copy, PartialEq, Eq, Structural)]
pub struct NeedsUpdate {
    pub all: bool,
    pub diff: bool,
    pub commands: bool,
}

impl NeedsUpdate {
    /// The flags of a diff refresh.
    pub open spec fn diff_flags() -> NeedsUpdate {
        NeedsUpdate { all: false, diff: true, commands: false }
    }

    /// The flags of a full refresh.
    pub open spec fn all_flags() -> NeedsUpdate {
        NeedsUpdate { all: true, diff: false, commands: false }
    }

    /// Everything must be recomputed.
    pub fn all() -> (r: Self)
        ensures
            r == (NeedsUpdate { all: true, diff: false, commands: false }),
    {
        NeedsUpdate { all: true, diff: false, commands: false }
    }

    /// The diff view must be recomputed.
    pub fn diff() -> (r: Self)
        ensures
            r == (NeedsUpdate { all: false, diff: true, commands: false }),
    {
        NeedsUpdate { all: false, diff: true, commands: false }
    }

    /// The set of flags raised by either signal.
    pub fn union(self, other: Self) -> (r: Self)
        ensures
            r.all == (self.all || other.all),
            r.diff == (self.diff || other.diff),
            r.commands == (self.commands || other.commands),
    {
        NeedsUpdate {
            all: self.all || other.all,
            diff: self.diff || other.diff,
            commands: self.commands || other.commands,
        }
    }

    /// Whether every flag of `other` is raised here.
    pub fn contains(self, other: Self) -> (r: bool)
        ensures
            r == ((other.all ==> self.all) && (other.diff ==> self.diff) && (other.commands
                ==> self.commands)),
    {
        (!other.all || self.all) && (!other.diff || self.diff) && (!other.commands
            || self.commands)
    }
}

/// A deferred effect requested by a component.
#[derive(Debug, Clone, PartialEq, Eq)]
pub enum InternalEvent {
    /// Views whose flags are raised must recompute.
    Update(NeedsUpdate),
    /// Show a message to the user.
    ShowMsg(String),
    /// Ask the user to confirm resetting the file at the path.
    ConfirmResetFile(String),
}

/// The first-in first-out queue of deferred effects.
pub struct Queue {
    events: VecDeque<InternalEvent>,
}

impl View for Queue {
    type V = Seq<InternalEvent>;

    closed spec fn view(&self) -> Seq<InternalEvent> {
        self.events@
    }
}

impl Queue {
    /// An empty queue.
    pub fn new() -> (r: Self)
        ensures
            r@ == Seq::<InternalEvent>::empty(),
    {
        Queue { events: VecDeque::new() }
    }

    /// Appends an event at the tail.
    pub fn push_back(&mut self, e: InternalEvent)
        ensures
            final(self)@ == old(self)@.push(e),
    {
        self.events.push_back(e);
    }

    /// Takes the event at the head, if any.
    pub fn pop_front(&mut self) -> (r: Option<InternalEvent>)
        ensures
            old(self)@.len() == 0 ==> r is None && final(self)@ == old(self)@,
            old(self)@.len() > 0 ==> r == Some(old(self)@[0]) && final(self)@ == old(
                self,
            )@.drop_first(),
    {
        let r = self.events.pop_front();
        proof {
            assert(self.events@ =~= old(self).events@.subrange(1, old(self).events@.len() as int)
                || r is None);
        }
        r
    }

    /// Number of pending events.
    pub fn len(&self) -> (r: usize)
        ensures
            r == self@.len(),
    {
        self.events.len()
    }
}

/// The events a draining pass takes, in order, over at most `steps` steps:
/// each step takes the head of the queue and appends what processing it
/// produces, as `pop_front` and `push_back` do.
pub open spec fn drained(
    pending: Seq<InternalEvent>,
    react: spec_fn(InternalEvent) -> Seq<InternalEvent>,
    steps: nat,
) -> Seq<InternalEvent>
    decreases steps,
{
    if steps == 0 || pending.len() == 0 {
        Seq::empty()
    } else {
        seq![pending[0]] + drained(pending.drop_first() + react(pending[0]), react, (steps - 1) as nat)
    }
}

/// Draining keeps insertion order: the events pending when a pass starts
/// are taken first, in the order they were queued, before any event that
/// processing them enqueued.
pub proof fn lemma_drain_keeps_order(
    pending: Seq<InternalEvent>,
    react: spec_fn(InternalEvent) -> Seq<InternalEvent>,
    steps: nat,
)
    requires
        steps >= pending.len(),
    ensures
        drained(pending, react, steps).len() >= pending.len(),
        drained(pending, react, steps).subrange(0, pending.len() as int) == pending,
{
    assert(pending.subrange(0, pending.len() as int) =~= pending);
    lemma_drain_keeps_prefix(pending, react, steps, pending);
}

/// A queue that starts with `prefix` is drained starting with `prefix`,
/// given enough steps.
pub proof fn lemma_drain_keeps_prefix(
    q: Seq<InternalEvent>,
    react: spec_fn(InternalEvent) -> Seq<InternalEvent>,
    steps: nat,
    prefix: Seq<InternalEvent>,
)
    requires
        steps >= prefix.len(),
        prefix.len() <= q.len(),
        q.subrange(0, prefix.len() as int) == prefix,
    ensures
        drained(q, react, steps).len() >= prefix.len(),
        drained(q, react, steps).subrange(0, prefix.len() as int) == prefix,
    decreases prefix.len(),
{
    if prefix.len() > 0 {
        let next = q.drop_first() + react(q[0]);
        let p2 = prefix.drop_first();
        assert(q[0] == prefix[0]);
        assert(next.subrange(0, p2.len() as int) =~= p2) by {
            assert forall|i: int| 0 <= i < p2.len() implies next[i] == p2[i] by {
                assert(q.subrange(0, prefix.len() as int)[i + 1] == prefix[i + 1]);
            }
        }
        lemma_drain_keeps_prefix(next, react, (steps - 1) as nat, p2);
        let d = drained(next, react, (steps - 1) as nat);
        let all = drained(q, react, steps);
        assert(all == seq![q[0]] + d);
        assert forall|i: int| 0 <= i < prefix.len() implies all[i] == prefix[i] by {
            if i > 0 {
                assert(d.subrange(0, p2.len() as int)[i - 1] == p2[i - 1]);
            }
        }
        assert(all.subrange(0, prefix.len() as int) =~= prefix);
    } else {
        assert(drained(q, react, steps).subrange(0, 0) =~= prefix);
    }
}

} // verus!
