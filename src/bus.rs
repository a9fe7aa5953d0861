//! The domain event bus: one producer, any number of independent
//! subscriptions, each of which receives exactly the events emitted after it
//! opened, once each. An event is kept only until every open subscription has
//! received it.
use vstd::prelude::*;
use std::collections::VecDeque;
use std::sync::Arc;
use crate::event::DomainEvent;

verus! {

/// The events a subscriber that joined when `start` events had been emitted
/// observes once the bus has emitted `log`.
pub open spec fn observed(log: Seq<DomainEvent>, start: nat) -> Seq<DomainEvent> {
    log.subrange(start as int, log.len() as int)
}

/// A handle on one subscription of a bus.
#[derive(Debug, Clone, Copy, PartialEq, Eq, Structural)]
pub struct Subscription {
    pub id: usize,
}

/// The bus. `pending` holds the events from the oldest one that some open
/// subscription has still to receive; `cursors` gives, per subscription, the
/// index in `pending` of its next event, `None` once it is closed.
pub struct EventBus {
    pending: VecDeque<Arc<DomainEvent>>,
    cursors: Vec<Option<usize>>,
    base: Ghost<nat>,
    history: Ghost<Seq<DomainEvent>>,
}

impl View for EventBus {
    type V = Seq<DomainEvent>;

    /// Every event emitted so far, in order.
    closed spec fn view(&self) -> Seq<DomainEvent> {
        self.history@
    }
}

impl EventBus {
    /// The events the bus still holds, oldest first.
    pub closed spec fn retained(&self) -> Seq<DomainEvent> {
        self.pending@.map_values(|a: Arc<DomainEvent>| *a)
    }

    /// Number of subscriptions ever opened.
    pub closed spec fn subscriptions(&self) -> nat {
        self.cursors@.len()
    }

    /// The position in the history of the next event for subscription `id`;
    /// `None` if it was closed or never opened.
    pub closed spec fn position(&self, id: nat) -> Option<nat> {
        if id < self.cursors@.len() {
            match self.cursors@[id as int] {
                Some(k) => Some((self.base@ + k) as nat),
                None => None,
            }
        } else {
            None
        }
    }

    spec fn cursors_in_range(&self) -> bool {
        forall|i: int|
            0 <= i < self.cursors@.len() ==> (#[trigger] self.cursors@[i] matches Some(k) ==> k
                <= self.pending@.len())
    }

    spec fn front_awaited(&self) -> bool {
        exists|i: int| 0 <= i < self.cursors@.len() && #[trigger] self.cursors@[i] == Some(0usize)
    }

    spec fn holds_tail(&self) -> bool {
        &&& self.base@ + self.pending@.len() == self@.len()
        &&& self.retained() == self@.subrange(self.base@ as int, self@.len() as int)
        &&& self.cursors_in_range()
    }

    pub closed spec fn wf(&self) -> bool {
        &&& self.holds_tail()
        &&& self.pending@.len() > 0 ==> self.front_awaited()
    }

    /// The bus holds the newest events only, from the oldest one that an open
    /// subscription has still to receive, and nothing when none has.
    pub open spec fn keeps_only_unreceived(&self) -> bool {
        &&& self.retained().len() <= self@.len()
        &&& self.retained() == observed(self@, (self@.len() - self.retained().len()) as nat)
        &&& self.retained().len() > 0 ==> exists|id: nat| #[trigger] self.position(id)
            == Some((self@.len() - self.retained().len()) as nat)
    }

    proof fn lemma_keeps(&self)
        requires
            self.wf(),
        ensures
            self.keeps_only_unreceived(),
    {
        if self.retained().len() > 0 {
            let i = choose|i: int| 0 <= i < self.cursors@.len() && #[trigger] self.cursors@[i] == Some(0usize);
            assert(self.position(i as nat) == Some(self.base@));
        }
    }

    /// A bus on which nothing has been emitted, with no subscription.
    pub fn new() -> (r: Self)
        ensures
            r.wf(),
            r.keeps_only_unreceived(),
            r@ == Seq::<DomainEvent>::empty(),
            r.subscriptions() == 0,
            forall|id: nat| r.position(id) is None,
    {
        let r = EventBus {
            pending: VecDeque::new(),
            cursors: Vec::new(),
            base: Ghost(0),
            history: Ghost(Seq::empty()),
        };
        proof {
            assert(r.retained() =~= r@.subrange(0, 0));
            r.lemma_keeps();
        }
        r
    }

    /// Number of events the bus holds.
    pub fn retained_len(&self) -> (r: usize)
        ensures
            r == self.retained().len(),
    {
        self.pending.len()
    }

    fn any_open(&self) -> (r: bool)
        ensures
            r == exists|i: int| 0 <= i < self.cursors@.len() && #[trigger] self.cursors@[i] is Some,
    {
        let mut i: usize = 0;
        while i < self.cursors.len()
            invariant
                i <= self.cursors@.len(),
                forall|j: int| 0 <= j < i ==> !(#[trigger] self.cursors@[j] is Some),
            decreases self.cursors@.len() - i,
        {
            if self.cursors[i].is_some() {
                return true;
            }
            i = i + 1;
        }
        false
    }

    fn front_is_awaited(&self) -> (r: bool)
        ensures
            r == self.front_awaited(),
    {
        let mut i: usize = 0;
        while i < self.cursors.len()
            invariant
                i <= self.cursors@.len(),
                forall|j: int| 0 <= j < i ==> #[trigger] self.cursors@[j] != Some(0usize),
            decreases self.cursors@.len() - i,
        {
            match self.cursors[i] {
                Some(k) => {
                    if k == 0 {
                        return true;
                    }
                },
                None => {},
            }
            i = i + 1;
        }
        false
    }

    /// Drops the oldest event once no open subscription awaits it.
    fn drop_front(&mut self)
        requires
            old(self).holds_tail(),
            old(self).pending@.len() > 0,
            !old(self).front_awaited(),
        ensures
            final(self).holds_tail(),
            final(self).pending@.len() == old(self).pending@.len() - 1,
            final(self)@ == old(self)@,
            final(self).cursors@.len() == old(self).cursors@.len(),
            forall|id: nat| #[trigger] final(self).position(id) == old(self).position(id),
    {
        let ghost old_retained = self.retained();
        self.pending.pop_front();
        self.base = Ghost(self.base@ + 1);
        let mut i: usize = 0;
        while i < self.cursors.len()
            invariant
                i <= self.cursors@.len(),
                self.cursors@.len() == old(self).cursors@.len(),
                self.pending@ == old(self).pending@.subrange(1, old(self).pending@.len() as int),
                self.base@ == old(self).base@ + 1,
                self.history == old(self).history,
                !old(self).front_awaited(),
                old(self).cursors_in_range(),
                forall|j: int| 0 <= j < i ==> (#[trigger] self.cursors@[j] matches Some(k) ==> (old(self).cursors@[j] matches Some(k0) && k0 == k + 1)),
                forall|j: int| 0 <= j < i ==> (self.cursors@[j] is None <==> #[trigger] old(self).cursors@[j] is None),
                forall|j: int| i <= j < self.cursors@.len() ==> #[trigger] self.cursors@[j] == old(self).cursors@[j],
            decreases self.cursors@.len() - i,
        {
            match self.cursors[i] {
                Some(k) => {
                    assert(old(self).cursors@[i as int] == Some(k));
                    if k == 0 {
                        assert(old(self).front_awaited());
                    }
                    self.cursors.set(i, Some(k - 1));
                },
                None => {},
            }
            i = i + 1;
        }
        proof {
            assert(self.retained() =~= old_retained.subrange(1, old_retained.len() as int));
            assert(self.retained() =~= self@.subrange(self.base@ as int, self@.len() as int));
            assert forall|id: nat| #[trigger] self.position(id) == old(self).position(id) by {
                if id < self.cursors@.len() {
                    let j = id as int;
                    match self.cursors@[j] {
                        Some(k) => {
                            assert(old(self).cursors@[j] matches Some(k0) && k0 == k + 1);
                        },
                        None => {
                            assert(old(self).cursors@[j] is None);
                        },
                    }
                }
            }
            assert forall|j: int| 0 <= j < self.cursors@.len() implies (#[trigger] self.cursors@[j] matches Some(k) ==> k <= self.pending@.len()) by {
                match self.cursors@[j] {
                    Some(k) => {
                        assert(old(self).cursors@[j] matches Some(k0) && k0 == k + 1);
                    },
                    None => {},
                }
            }
        }
    }

    /// Drops every event that all open subscriptions have received.
    fn compact(&mut self)
        requires
            old(self).holds_tail(),
        ensures
            final(self).wf(),
            final(self)@ == old(self)@,
            final(self).cursors@.len() == old(self).cursors@.len(),
            forall|id: nat| #[trigger] final(self).position(id) == old(self).position(id),
    {
        loop
            invariant
                self.holds_tail(),
                self@ == old(self)@,
                self.cursors@.len() == old(self).cursors@.len(),
                forall|id: nat| #[trigger] self.position(id) == old(self).position(id),
            ensures
                self.holds_tail(),
                self@ == old(self)@,
                self.cursors@.len() == old(self).cursors@.len(),
                forall|id: nat| #[trigger] self.position(id) == old(self).position(id),
                self.pending@.len() > 0 ==> self.front_awaited(),
            decreases self.pending@.len(),
        {
            if self.pending.len() == 0 {
                break;
            }
            if self.front_is_awaited() {
                break;
            }
            self.drop_front();
        }
    }

    /// Delivers `event` to every open subscription; with none open, nothing
    /// is kept.
    pub fn emit(&mut self, event: DomainEvent)
        requires
            old(self).wf(),
        ensures
            final(self).wf(),
            final(self).keeps_only_unreceived(),
            final(self)@ == old(self)@.push(event),
            final(self).subscriptions() == old(self).subscriptions(),
            forall|id: nat| #[trigger] final(self).position(id) == old(self).position(id),
    {
        let ghost ev = event;
        let ghost old_retained = self.retained();
        if self.pending.len() > 0 || self.any_open() {
            self.pending.push_back(Arc::new(event));
            self.history = Ghost(self.history@.push(ev));
            proof {
                assert(self.retained() =~= old_retained.push(ev));
                assert(self.retained() =~= self@.subrange(self.base@ as int, self@.len() as int));
                if old_retained.len() == 0 {
                    let i = choose|i: int| 0 <= i < self.cursors@.len() && #[trigger] self.cursors@[i] is Some;
                    assert(self.cursors@[i] == Some(0usize));
                }
            }
        } else {
            self.base = Ghost(self.base@ + 1);
            self.history = Ghost(self.history@.push(ev));
            proof {
                assert(self.retained() =~= self@.subrange(self.base@ as int, self@.len() as int));
                assert forall|id: nat| #[trigger] self.position(id) == old(self).position(id) by {
                    if id < self.cursors@.len() {
                        assert(!(self.cursors@[id as int] is Some));
                    }
                }
            }
        }
        proof {
            self.lemma_keeps();
        }
    }

    /// Opens a subscription that receives only what is emitted from now on.
    pub fn subscribe(&mut self) -> (r: Subscription)
        requires
            old(self).wf(),
        ensures
            final(self).wf(),
            final(self).keeps_only_unreceived(),
            r.id == old(self).subscriptions(),
            final(self).subscriptions() == old(self).subscriptions() + 1,
            final(self).position(r.id as nat) == Some(old(self)@.len()),
            final(self)@ == old(self)@,
            forall|id: nat| id != r.id ==> #[trigger] final(self).position(id) == old(self).position(id),
    {
        let id = self.cursors.len();
        self.cursors.push(Some(self.pending.len()));
        proof {
            if self.pending@.len() > 0 {
                let i = choose|i: int| 0 <= i < old(self).cursors@.len() && #[trigger] old(self).cursors@[i] == Some(0usize);
                assert(self.cursors@[i] == Some(0usize));
            }
            assert forall|j: int| 0 <= j < self.cursors@.len() implies (#[trigger] self.cursors@[j] matches Some(k) ==> k <= self.pending@.len()) by {
                if j < id {
                    assert(self.cursors@[j] == old(self).cursors@[j]);
                }
            }
            self.lemma_keeps();
        }
        Subscription { id }
    }

    /// The next event for `sub`, if one was emitted since it last received.
    /// Each event is handed to a subscription at most once; an event that
    /// every open subscription has now received is dropped.
    pub fn receive(&mut self, sub: Subscription) -> (r: Option<Arc<DomainEvent>>)
        requires
            old(self).wf(),
        ensures
            final(self).wf(),
            final(self).keeps_only_unreceived(),
            final(self)@ == old(self)@,
            final(self).subscriptions() == old(self).subscriptions(),
            forall|id: nat| id != sub.id ==> #[trigger] final(self).position(id) == old(self).position(id),
            match old(self).position(sub.id as nat) {
                Some(p) => if p < old(self)@.len() {
                    &&& r matches Some(e) && *e == old(self)@[p as int] && *e == observed(
                        old(self)@,
                        p,
                    )[0]
                    &&& final(self).position(sub.id as nat) == Some(p + 1)
                    &&& observed(old(self)@, p + 1) == observed(old(self)@, p).drop_first()
                } else {
                    r is None && final(self).position(sub.id as nat) == Some(p)
                },
                None => r is None && final(self).position(sub.id as nat) is None,
            },
    {
        if sub.id >= self.cursors.len() {
            proof {
                self.lemma_keeps();
                assert(observed(self@, 0) =~= self@.subrange(0, self@.len() as int));
            }
            return None;
        }
        match self.cursors[sub.id] {
            Some(k) => {
                if k < self.pending.len() {
                    let e = Arc::clone(&self.pending[k]);
                    assert(self.retained()[k as int] == *self.pending@[k as int]);
                    assert(*e == self@[self.base@ + k]);
                    self.cursors.set(sub.id, Some(k + 1));
                    proof {
                        assert forall|j: int| 0 <= j < self.cursors@.len() implies (#[trigger] self.cursors@[j] matches Some(c) ==> c <= self.pending@.len()) by {
                            if j != sub.id {
                                assert(self.cursors@[j] == old(self).cursors@[j]);
                            }
                        }
                        assert forall|id: nat| id != sub.id implies #[trigger] self.position(id) == old(self).position(id) by {
                            if id < self.cursors@.len() {
                                assert(self.cursors@[id as int] == old(self).cursors@[id as int]);
                            }
                        }
                        let p = (self.base@ + k) as nat;
                        assert(observed(self@, p + 1) =~= observed(self@, p).drop_first());
                    }
                    self.compact();
                    proof {
                        self.lemma_keeps();
                    }
                    Some(e)
                } else {
                    proof {
                        self.lemma_keeps();
                    }
                    None
                }
            },
            None => {
                proof {
                    self.lemma_keeps();
                }
                None
            },
        }
    }

    /// Closes `sub`: it receives nothing more, and events only it still
    /// awaited are dropped.
    pub fn unsubscribe(&mut self, sub: Subscription)
        requires
            old(self).wf(),
        ensures
            final(self).wf(),
            final(self).keeps_only_unreceived(),
            final(self)@ == old(self)@,
            final(self).subscriptions() == old(self).subscriptions(),
            final(self).position(sub.id as nat) is None,
            forall|id: nat| id != sub.id ==> #[trigger] final(self).position(id) == old(self).position(id),
    {
        if sub.id < self.cursors.len() {
            self.cursors.set(sub.id, None);
            proof {
                assert forall|j: int| 0 <= j < self.cursors@.len() implies (#[trigger] self.cursors@[j] matches Some(c) ==> c <= self.pending@.len()) by {
                    if j != sub.id {
                        assert(self.cursors@[j] == old(self).cursors@[j]);
                    }
                }
                assert forall|id: nat| id != sub.id implies #[trigger] self.position(id) == old(self).position(id) by {
                    if id < self.cursors@.len() {
                        assert(self.cursors@[id as int] == old(self).cursors@[id as int]);
                    }
                }
            }
            self.compact();
        }
        proof {
            self.lemma_keeps();
        }
    }
}

/// No replay, exactly once: a subscriber that joined after `before` had been
/// emitted observes exactly the events emitted since, so none of the earlier
/// ones and each later one once, at its own position.
pub proof fn lemma_no_replay(before: Seq<DomainEvent>, after: Seq<DomainEvent>)
    ensures
        observed(before + after, before.len()) == after,
        forall|i: int| 0 <= i < after.len() ==>
            #[trigger] observed(before + after, before.len())[i] == (before + after)[before.len() + i],
{
    assert(observed(before + after, before.len()) =~= after);
}

} // verus!
