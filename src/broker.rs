//! Fan-out of session events to observers.
//!
//! Each observer follows one session and has a buffer of fixed capacity. A
//! published event goes to every observer of its session; an observer whose
//! buffer is full loses its oldest event, so a slow observer never holds up
//! the publisher or the other observers.

use vstd::prelude::*;
use crate::models::WebSocketEvent;

verus! {

/// The last `cap` elements of `s` (all of it when it is no longer).
pub open spec fn keep_last<A>(s: Seq<A>, cap: nat) -> Seq<A> {
    if s.len() > cap {
        s.subrange(s.len() - cap, s.len() as int)
    } else {
        s
    }
}

/// A buffer of capacity `cap` after `e` arrives: the oldest event goes when it is full.
pub open spec fn received<A>(buf: Seq<A>, e: A, cap: nat) -> Seq<A> {
    keep_last(buf.push(e), cap)
}

/// A buffer after the events `es` arrive one by one, in order.
pub open spec fn received_all<A>(buf: Seq<A>, es: Seq<A>, cap: nat) -> Seq<A>
    decreases es.len(),
{
    if es.len() == 0 {
        buf
    } else {
        received(received_all(buf, es.drop_last(), cap), es.last(), cap)
    }
}

proof fn lemma_keep_last_push<A>(p: Seq<A>, x: A, cap: nat)
    requires
        cap > 0,
    ensures
        keep_last(keep_last(p, cap).push(x), cap) =~= keep_last(p.push(x), cap),
{
}

/// An observer that starts empty and never falls behind receives every
/// event, in publish order; one that falls behind by more than the capacity
/// holds exactly the most recent `cap` events, in publish order, each once.
pub proof fn lemma_delivery_in_order<A>(es: Seq<A>, cap: nat)
    requires
        cap > 0,
    ensures
        received_all(Seq::<A>::empty(), es, cap) == keep_last(es, cap),
        es.len() <= cap ==> received_all(Seq::<A>::empty(), es, cap) == es,
        es.len() > cap ==> received_all(Seq::<A>::empty(), es, cap) == es.subrange(
            es.len() - cap,
            es.len() as int,
        ),
    decreases es.len(),
{
    if es.len() > 0 {
        lemma_delivery_in_order(es.drop_last(), cap);
        lemma_keep_last_push(es.drop_last(), es.last(), cap);
        assert(es.drop_last().push(es.last()) =~= es);
    } else {
        assert(keep_last(es, cap) =~= es);
    }
}

/// One observer: its handle, the session it follows, and what it has not yet taken.
pub struct Observer {
    id: u64,
    session_id: u128,
    buffer: Vec<WebSocketEvent>,
}

pub struct StreamBroker {
    observers: Vec<Observer>,
    capacity: usize,
    next_id: u64,
}

impl View for StreamBroker {
    /// The observers in order of subscription: handle, session, buffered events.
    type V = Seq<(u64, u128, Seq<WebSocketEvent>)>;

    closed spec fn view(&self) -> Seq<(u64, u128, Seq<WebSocketEvent>)> {
        self.observers@.map_values(|o: Observer| (o.id, o.session_id, o.buffer@))
    }
}

impl StreamBroker {
    pub closed spec fn capacity_spec(&self) -> nat {
        self.capacity as nat
    }

    /// Whether a further feed can still get a fresh handle.
    pub closed spec fn handles_left(&self) -> bool {
        self.next_id < u64::MAX
    }

    pub closed spec fn wf(&self) -> bool {
        &&& self.capacity > 0
        &&& forall|i: int|
            0 <= i < self.observers@.len() ==> (#[trigger] self.observers@[i]).buffer@.len()
                <= self.capacity && self.observers@[i].id < self.next_id
        &&& forall|i: int, j: int|
            0 <= i < self.observers@.len() && 0 <= j < self.observers@.len() && i != j
                ==> self.observers@[i].id != self.observers@[j].id
    }

    /// Observer handles are never shared.
    pub proof fn lemma_handles_unique(&self)
        requires
            self.wf(),
        ensures
            forall|i: int, j: int|
                0 <= i < self@.len() && 0 <= j < self@.len() && i != j ==> self@[i].0 != self@[j].0,
            forall|i: int| 0 <= i < self@.len() ==> (#[trigger] self@[i]).2.len() <= self.capacity_spec(),
    {
    }

    /// Once a feed is closed no open feed has its handle, so closing it again
    /// finds nothing: unsubscription is idempotent.
    pub proof fn lemma_closed_feed_gone(before: &Self, after: &Self, id: u64, i: int)
        requires
            before.wf(),
            0 <= i < before@.len(),
            before@[i].0 == id,
            after@ == before@.remove(i),
        ensures
            forall|j: int| 0 <= j < after@.len() ==> after@[j].0 != id,
    {
        before.lemma_handles_unique();
        assert forall|j: int| 0 <= j < after@.len() implies after@[j].0 != id by {
            let k = if j < i { j } else { j + 1 };
            assert(after@[j] == before@[k]);
        }
    }

    /// A broker whose observers each buffer up to `capacity` events.
    pub fn new(capacity: usize) -> (r: StreamBroker)
        requires
            capacity > 0,
        ensures
            r.wf(),
            r.handles_left(),
            r@ == Seq::<(u64, u128, Seq<WebSocketEvent>)>::empty(),
            r.capacity_spec() == capacity,
    {
        let r = StreamBroker { observers: Vec::new(), capacity: capacity, next_id: 0 };
        assert(r@ =~= Seq::<(u64, u128, Seq<WebSocketEvent>)>::empty());
        r
    }

    fn position(&self, id: u64) -> (r: Option<usize>)
        ensures
            match r {
                Some(i) => i < self@.len() && self@[i as int].0 == id,
                None => forall|i: int| 0 <= i < self@.len() ==> self@[i].0 != id,
            },
    {
        let mut i: usize = 0;
        while i < self.observers.len()
            invariant
                i <= self.observers@.len(),
                forall|k: int| 0 <= k < i ==> self@[k].0 != id,
            decreases self.observers@.len() - i,
        {
            if self.observers[i].id == id {
                return Some(i);
            }
            i = i + 1;
        }
        None
    }

    /// Opens a feed on `session_id` and returns its handle; `None` once
    /// handles are exhausted.
    pub fn subscribe(&mut self, session_id: u128) -> (r: Option<u64>)
        requires
            old(self).wf(),
        ensures
            final(self).wf(),
            final(self).capacity_spec() == old(self).capacity_spec(),
            old(self).handles_left() <==> r is Some,
            match r {
                Some(id) => {
                    &&& forall|i: int| 0 <= i < old(self)@.len() ==> old(self)@[i].0 != id
                    &&& final(self)@ == old(self)@.push((id, session_id, Seq::<WebSocketEvent>::empty()))
                },
                None => final(self)@ == old(self)@,
            },
    {
        if self.next_id == u64::MAX {
            return None;
        }
        let id = self.next_id;
        self.next_id = self.next_id + 1;
        let o = Observer { id: id, session_id: session_id, buffer: Vec::new() };
        self.observers.push(o);
        assert(self@ =~= old(self)@.push((id, session_id, Seq::<WebSocketEvent>::empty())));
        assert forall|i: int| 0 <= i < self.observers@.len() implies (#[trigger] self.observers@[i]).buffer@.len()
            <= self.capacity && self.observers@[i].id < self.next_id by {
            if i < old(self).observers@.len() {
                assert(self.observers@[i] == old(self).observers@[i]);
            }
        }
        Some(id)
    }

    /// Closes the feed `id`; true if it was open. Closing twice is harmless,
    /// and no other feed is touched.
    pub fn unsubscribe(&mut self, id: u64) -> (r: bool)
        requires
            old(self).wf(),
        ensures
            final(self).wf(),
            final(self).capacity_spec() == old(self).capacity_spec(),
            r == exists|i: int| 0 <= i < old(self)@.len() && old(self)@[i].0 == id,
            r ==> exists|i: int|
                0 <= i < old(self)@.len() && old(self)@[i].0 == id && final(self)@ == old(self)@.remove(i),
            !r ==> final(self)@ == old(self)@,
    {
        match self.position(id) {
            None => false,
            Some(i) => {
                self.observers.remove(i);
                assert(self@ =~= old(self)@.remove(i as int));
                assert forall|a: int, b: int|
                    0 <= a < self.observers@.len() && 0 <= b < self.observers@.len() && a != b implies self.observers@[a].id
                    != self.observers@[b].id by {
                    let sa = if a < i { a } else { a + 1 };
                    let sb = if b < i { b } else { b + 1 };
                    assert(self.observers@[a] == old(self).observers@[sa]);
                    assert(self.observers@[b] == old(self).observers@[sb]);
                }
                assert forall|k: int| 0 <= k < self.observers@.len() implies (#[trigger] self.observers@[k]).buffer@.len()
                    <= self.capacity && self.observers@[k].id < self.next_id by {
                    let j = if k < i { k } else { k + 1 };
                    assert(self.observers@[k] == old(self).observers@[j]);
                }
                true
            },
        }
    }

    /// Sends `event` to every observer of `session_id`, dropping an observer's
    /// oldest event where its buffer is full.
    pub fn publish(&mut self, session_id: u128, event: WebSocketEvent)
        requires
            old(self).wf(),
        ensures
            final(self).wf(),
            final(self).capacity_spec() == old(self).capacity_spec(),
            final(self)@.len() == old(self)@.len(),
            forall|i: int|
                0 <= i < old(self)@.len() ==> {
                    &&& (#[trigger] final(self)@[i]).0 == old(self)@[i].0
                    &&& final(self)@[i].1 == old(self)@[i].1
                    &&& final(self)@[i].2 == if old(self)@[i].1 == session_id {
                        received(old(self)@[i].2, event, old(self).capacity_spec())
                    } else {
                        old(self)@[i].2
                    }
                },
    {
        let mut i: usize = 0;
        while i < self.observers.len()
            invariant
                self.capacity == old(self).capacity,
                self.next_id == old(self).next_id,
                self.capacity > 0,
                self.observers@.len() == old(self).observers@.len(),
                i <= self.observers@.len(),
                forall|k: int|
                    0 <= k < self.observers@.len() ==> {
                        &&& (#[trigger] self.observers@[k]).id == old(self).observers@[k].id
                        &&& self.observers@[k].session_id == old(self).observers@[k].session_id
                        &&& self.observers@[k].buffer@.len() <= self.capacity
                        &&& self.observers@[k].buffer@ == if k < i && old(self).observers@[k].session_id
                            == session_id {
                            received(old(self).observers@[k].buffer@, event, self.capacity as nat)
                        } else {
                            old(self).observers@[k].buffer@
                        }
                    },
                forall|k: int| 0 <= k < old(self).observers@.len() ==> (#[trigger] old(self).observers@[k]).buffer@.len() <= self.capacity,
            decreases self.observers@.len() - i,
        {
            if self.observers[i].session_id == session_id {
                let ghost before = self.observers@;
                let mut o = self.observers.remove(i);
                let ghost buf = o.buffer@;
                if o.buffer.len() >= self.capacity {
                    o.buffer.remove(0);
                }
                o.buffer.push(event.duplicate());
                proof {
                    assert(o.buffer@ =~= received(buf, event, self.capacity as nat));
                }
                self.observers.insert(i, o);
                proof {
                    assert(self.observers@ =~= before.update(i as int, o));
                }
            }
            i = i + 1;
        }
        proof {
            assert forall|a: int, b: int|
                0 <= a < self.observers@.len() && 0 <= b < self.observers@.len() && a != b implies self.observers@[a].id
                != self.observers@[b].id by {
                assert(self.observers@[a].id == old(self).observers@[a].id);
                assert(self.observers@[b].id == old(self).observers@[b].id);
            }
        }
    }

    /// Takes everything that observer `id` has buffered, oldest first,
    /// leaving its buffer empty; `None` if no such observer is open.
    pub fn drain(&mut self, id: u64) -> (r: Option<Vec<WebSocketEvent>>)
        requires
            old(self).wf(),
        ensures
            final(self).wf(),
            final(self).capacity_spec() == old(self).capacity_spec(),
            match r {
                Some(events) => exists|i: int|
                    0 <= i < old(self)@.len() && old(self)@[i].0 == id && events@ == old(self)@[i].2
                        && final(self)@ == old(self)@.update(
                        i,
                        (id, old(self)@[i].1, Seq::<WebSocketEvent>::empty()),
                    ),
                None => {
                    &&& forall|i: int| 0 <= i < old(self)@.len() ==> old(self)@[i].0 != id
                    &&& final(self)@ == old(self)@
                },
            },
    {
        match self.position(id) {
            None => None,
            Some(i) => {
                let o = self.observers.remove(i);
                let Observer { id: oid, session_id, buffer } = o;
                let fresh = Observer { id: oid, session_id: session_id, buffer: Vec::new() };
                self.observers.insert(i, fresh);
                assert(self.observers@ =~= old(self).observers@.update(i as int, fresh));
                assert(self@ =~= old(self)@.update(i as int, (id, session_id, Seq::<WebSocketEvent>::empty())));
                assert forall|k: int| 0 <= k < self.observers@.len() implies (#[trigger] self.observers@[k]).buffer@.len()
                    <= self.capacity && self.observers@[k].id < self.next_id by {
                    if k != i {
                        assert(self.observers@[k] == old(self).observers@[k]);
                    }
                }
                assert forall|a: int, b: int|
                    0 <= a < self.observers@.len() && 0 <= b < self.observers@.len() && a != b implies self.observers@[a].id
                    != self.observers@[b].id by {
                    assert(self.observers@[a].id == old(self).observers@[a].id);
                    assert(self.observers@[b].id == old(self).observers@[b].id);
                }
                Some(buffer)
            },
        }
    }
}

} // verus!
