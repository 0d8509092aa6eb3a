//! The event bus: one in-process broadcast hub with bounded backlogs.
//!
//! Every accepted mutation is published once; every live subscriber holds a
//! cursor into the publish history. A subscriber buffers at most
//! `BACKLOG_CAPACITY` pending events: when a new event arrives while the
//! backlog is full, the oldest pending event is dropped to admit it, so
//! publishing never waits on a slow consumer. Among the events a subscriber
//! does receive, delivery order is publish order — its pending window is
//! always one contiguous slice of the history (gaps at the front only,
//! never reordering).
//!
//! The bus is plain data; an embedding program shares it behind its own
//! lock and wake-up primitive.

use vstd::prelude::*;
use vstd::pervasive::unreached;
use vstd::pervasive::VecAdditionalExecFns;

use crate::model::{ChangeEvent, EventView};

verus! {

/// Most events a subscriber may leave pending before losing the oldest.
pub const BACKLOG_CAPACITY: usize = 100;

/// What one attempt to take the next event yields.
#[derive(Debug, PartialEq)]
pub enum RecvOutcome {
    /// The next pending event.
    Event(ChangeEvent),
    /// The subscriber fell behind and this many events were lost; its
    /// cursor now rests on the oldest retained event. Non-fatal.
    Lagged(u64),
    /// Nothing pending right now.
    Empty,
}

/// Mathematical image of a `RecvOutcome`.
pub enum RecvView {
    Event(EventView),
    Lagged(u64),
    Empty,
}

impl View for RecvOutcome {
    type V = RecvView;

    open spec fn view(&self) -> RecvView {
        match self {
            RecvOutcome::Event(e) => RecvView::Event(e@),
            RecvOutcome::Lagged(n) => RecvView::Lagged(*n),
            RecvOutcome::Empty => RecvView::Empty,
        }
    }
}

/// Abstract state of the bus: the full publish history and one optional
/// cursor per subscription slot (`None` once released).
#[verifier::ext_equal]
pub struct BusView {
    pub history: Seq<EventView>,
    pub cursors: Seq<Option<u64>>,
}

/// Index of the oldest event still retained for delivery.
pub open spec fn bus_floor(b: BusView) -> int {
    if b.history.len() >= BACKLOG_CAPACITY as int {
        b.history.len() - BACKLOG_CAPACITY as int
    } else {
        0
    }
}

/// Whether slot `s` holds a live subscription.
pub open spec fn bus_active(b: BusView, s: int) -> bool {
    0 <= s < b.cursors.len() && b.cursors[s] is Some
}

/// The cursor of slot `s`: the history index of the next event it takes.
pub open spec fn cursor_pos(b: BusView, s: int) -> int {
    b.cursors[s]->0 as int
}

/// Every live cursor points into the history (or one past its end).
pub open spec fn bus_wf(b: BusView) -> bool {
    forall|s: int| bus_active(b, s) ==> #[trigger] cursor_pos(b, s) <= b.history.len()
}

/// The events subscriber `s` has yet to receive, oldest first: one
/// contiguous slice from its cursor (clipped to the retention floor) to the
/// end of the history.
pub open spec fn bus_pending(b: BusView, s: int) -> Seq<EventView> {
    let c = cursor_pos(b, s);
    let lo = if c < bus_floor(b) {
        bus_floor(b)
    } else {
        c
    };
    b.history.subrange(lo, b.history.len() as int)
}

/// How many events subscriber `s` has lost to backlog overflow and not yet
/// been told about.
pub open spec fn bus_missed(b: BusView, s: int) -> int {
    if cursor_pos(b, s) < bus_floor(b) {
        bus_floor(b) - cursor_pos(b, s)
    } else {
        0
    }
}

/// How many `Some` entries a cursor sequence holds.
pub open spec fn count_some(cs: Seq<Option<u64>>) -> int
    decreases cs.len(),
{
    if cs.len() == 0 {
        0
    } else {
        count_some(cs.drop_last()) + (if cs.last() is Some {
            1int
        } else {
            0int
        })
    }
}

/// Number of live subscriptions.
pub open spec fn bus_active_count(b: BusView) -> int {
    count_some(b.cursors)
}

/// Publishing appends to the history and touches no cursor.
pub open spec fn publish_transition(b: BusView, e: EventView) -> BusView {
    BusView { history: b.history.push(e), cursors: b.cursors }
}

/// Subscribing opens a new slot whose cursor starts at the end of the
/// history: a new subscriber sees only future events.
pub open spec fn subscribe_transition(b: BusView) -> BusView {
    BusView { history: b.history, cursors: b.cursors.push(Some(b.history.len() as u64)) }
}

/// Releasing a subscription clears its slot.
pub open spec fn unsubscribe_transition(b: BusView, s: int) -> BusView {
    BusView { history: b.history, cursors: b.cursors.update(s, None) }
}

/// Taking the next event for slot `s`: report a lag and catch up to the
/// floor if events were lost, else deliver the event under the cursor, else
/// report an empty backlog.
pub open spec fn recv_transition(b: BusView, s: int) -> (BusView, RecvView) {
    let c = cursor_pos(b, s);
    let fl = bus_floor(b);
    if c < fl {
        (
            BusView { history: b.history, cursors: b.cursors.update(s, Some(fl as u64)) },
            RecvView::Lagged((fl - c) as u64),
        )
    } else if c < b.history.len() {
        (
            BusView { history: b.history, cursors: b.cursors.update(s, Some((c + 1) as u64)) },
            RecvView::Event(b.history[c]),
        )
    } else {
        (b, RecvView::Empty)
    }
}

pub proof fn lemma_count_some_push(cs: Seq<Option<u64>>, x: Option<u64>)
    ensures
        count_some(cs.push(x)) == count_some(cs) + (if x is Some {
            1int
        } else {
            0int
        }),
{
    assert(cs.push(x).drop_last() =~= cs);
    assert(cs.push(x).last() == x);
}

pub proof fn lemma_count_some_release(cs: Seq<Option<u64>>, s: int)
    requires
        0 <= s < cs.len(),
        cs[s] is Some,
    ensures
        count_some(cs.update(s, None)) == count_some(cs) - 1,
    decreases cs.len(),
{
    let cs2 = cs.update(s, None);
    if s == cs.len() - 1 {
        assert(cs2.drop_last() =~= cs.drop_last());
        assert(cs2.last() is None);
    } else {
        assert(cs2.drop_last() =~= cs.drop_last().update(s, None));
        assert(cs2.last() == cs.last());
        lemma_count_some_release(cs.drop_last(), s);
    }
}

proof fn lemma_wf_after_publish(b: BusView, e: EventView)
    requires
        bus_wf(b),
    ensures
        bus_wf(publish_transition(b, e)),
{
    let b2 = publish_transition(b, e);
    assert forall|s: int| bus_active(b2, s) implies #[trigger] cursor_pos(b2, s)
        <= b2.history.len() by {
        assert(bus_active(b, s));
        assert(cursor_pos(b, s) <= b.history.len());
    }
}

proof fn lemma_wf_after_subscribe(b: BusView)
    requires
        bus_wf(b),
        b.history.len() <= u64::MAX,
    ensures
        bus_wf(subscribe_transition(b)),
{
    let b2 = subscribe_transition(b);
    assert forall|s: int| bus_active(b2, s) implies #[trigger] cursor_pos(b2, s)
        <= b2.history.len() by {
        if s < b.cursors.len() {
            assert(bus_active(b, s));
            assert(cursor_pos(b, s) <= b.history.len());
        } else {
            assert(b2.cursors[s] == Some(b.history.len() as u64));
        }
    }
}

proof fn lemma_wf_after_unsubscribe(b: BusView, s: int)
    requires
        bus_wf(b),
        0 <= s < b.cursors.len(),
    ensures
        bus_wf(unsubscribe_transition(b, s)),
{
    let b2 = unsubscribe_transition(b, s);
    assert forall|t: int| bus_active(b2, t) implies #[trigger] cursor_pos(b2, t)
        <= b2.history.len() by {
        if t != s {
            assert(bus_active(b, t));
            assert(cursor_pos(b, t) <= b.history.len());
        } else {
            assert(!bus_active(b2, t));
        }
    }
}

proof fn lemma_wf_after_cursor_update(b: BusView, s: int, v: u64)
    requires
        bus_wf(b),
        0 <= s < b.cursors.len(),
        v as int <= b.history.len(),
    ensures
        bus_wf(BusView { history: b.history, cursors: b.cursors.update(s, Some(v)) }),
{
    let b2 = BusView { history: b.history, cursors: b.cursors.update(s, Some(v)) };
    assert forall|t: int| bus_active(b2, t) implies #[trigger] cursor_pos(b2, t)
        <= b2.history.len() by {
        if t != s {
            assert(bus_active(b, t));
            assert(cursor_pos(b, t) <= b.history.len());
        }
    }
}

/// The broadcast hub. Its exec state keeps only the retained window of the
/// history; the full history is carried as ghost state for specification.
/// Subscription slots are append-only: a released slot stays dead and its
/// index is never handed out again.
pub struct EventBus {
    buffer: Vec<ChangeEvent>,
    published: u64,
    cursors: Vec<Option<u64>>,
    history: Ghost<Seq<EventView>>,
}

impl View for EventBus {
    type V = BusView;

    closed spec fn view(&self) -> BusView {
        BusView { history: self.history@, cursors: self.cursors@ }
    }
}

impl EventBus {
    /// Internal well-formedness: the buffer mirrors the retained tail of
    /// the history and every cursor points into it.
    pub closed spec fn inv(&self) -> bool {
        let b = self.view();
        &&& b.history.len() == self.published as int
        &&& self.buffer@.len() == (if self.published as int >= BACKLOG_CAPACITY as int {
            BACKLOG_CAPACITY as int
        } else {
            self.published as int
        })
        &&& (forall|i: int|
            0 <= i < self.buffer@.len() ==> (#[trigger] self.buffer@[i])@ == b.history[bus_floor(b)
                + i])
        &&& bus_wf(b)
    }

    /// A fresh bus: empty history, no subscribers.
    pub fn new() -> (r: EventBus)
        ensures
            r.inv(),
            r@.history == Seq::<EventView>::empty(),
            r@.cursors == Seq::<Option<u64>>::empty(),
    {
        EventBus { buffer: Vec::new(), published: 0, cursors: Vec::new(), history: Ghost(Seq::empty()) }
    }

    /// Deliver `event` to every live subscriber's pending window. Never
    /// waits: a full backlog drops its oldest pending event instead.
    pub fn publish(&mut self, event: ChangeEvent)
        requires
            old(self).inv(),
            old(self)@.history.len() < u64::MAX,
        ensures
            final(self).inv(),
            final(self)@ == publish_transition(old(self)@, event@),
    {
        let ghost ev = event@;
        let ghost b0 = self.view();
        if self.buffer.len() == BACKLOG_CAPACITY {
            self.buffer.remove(0);
        }
        self.buffer.push(event);
        self.published = self.published + 1;
        proof {
            self.history@ = self.history@.push(ev);
        }
        proof {
            let b1 = self.view();
            let b2 = publish_transition(b0, ev);
            assert(b1 =~= b2);
            lemma_wf_after_publish(b0, ev);
            assert forall|i: int| 0 <= i < self.buffer@.len() implies (#[trigger] self.buffer@[i])@
                == b1.history[bus_floor(b1) + i] by {
                if i < self.buffer@.len() - 1 {
                    assert(self.buffer@[i] == old(self).buffer@[
                        i + (old(self).buffer@.len() + 1 - self.buffer@.len())]);
                }
            }
        }
    }

    /// Open a subscription; the new slot's cursor starts at the end of the
    /// history, so only events published afterwards reach it.
    pub fn subscribe(&mut self) -> (s: usize)
        requires
            old(self).inv(),
        ensures
            final(self).inv(),
            final(self)@ == subscribe_transition(old(self)@),
            s as int == old(self)@.cursors.len(),
            bus_active(final(self)@, s as int),
            bus_pending(final(self)@, s as int) == Seq::<EventView>::empty(),
            bus_active_count(final(self)@) == bus_active_count(old(self)@) + 1,
    {
        let s = self.cursors.len();
        self.cursors.push(Some(self.published));
        proof {
            assert(self.view() =~= subscribe_transition(old(self).view()));
            lemma_wf_after_subscribe(old(self).view());
            lemma_count_some_push(old(self)@.cursors, Some(self.published));
            assert(bus_pending(self.view(), s as int) =~= Seq::<EventView>::empty());
        }
        s
    }

    /// Release a subscription slot.
    pub fn unsubscribe(&mut self, s: usize)
        requires
            old(self).inv(),
            s < old(self)@.cursors.len(),
        ensures
            final(self).inv(),
            final(self)@ == unsubscribe_transition(old(self)@, s as int),
            bus_active_count(final(self)@) == bus_active_count(old(self)@) - (
            if bus_active(old(self)@, s as int) {
                1int
            } else {
                0int
            }),
    {
        proof {
            if bus_active(self.view(), s as int) {
                lemma_count_some_release(self.view().cursors, s as int);
            } else {
                assert(self.view().cursors.update(s as int, None) =~= self.view().cursors);
            }
        }
        self.cursors.set(s, None);
        proof {
            assert(self.view() =~= unsubscribe_transition(old(self).view(), s as int));
            lemma_wf_after_unsubscribe(old(self).view(), s as int);
        }
    }

    /// Take the next event for slot `s`, if any; a subscriber that fell
    /// behind is told how many events it lost and catches up, keeping the
    /// subscription live.
    pub fn recv(&mut self, s: usize) -> (r: RecvOutcome)
        requires
            old(self).inv(),
            bus_active(old(self)@, s as int),
        ensures
            final(self).inv(),
            final(self)@ == recv_transition(old(self)@, s as int).0,
            r@ == recv_transition(old(self)@, s as int).1,
    {
        let cur_opt = self.cursors[s];
        let cur = match cur_opt {
            Some(c) => c,
            None => unreached(),
        };
        let oldest = self.published - self.buffer.len() as u64;
        if cur < oldest {
            let missed = oldest - cur;
            self.cursors.set(s, Some(oldest));
            proof {
                assert(self.view() =~= recv_transition(old(self).view(), s as int).0);
                lemma_wf_after_cursor_update(old(self).view(), s as int, oldest);
            }
            RecvOutcome::Lagged(missed)
        } else if cur < self.published {
            let idx = (cur - oldest) as usize;
            let event = self.buffer[idx].clone();
            self.cursors.set(s, Some(cur + 1));
            proof {
                assert(self.view() =~= recv_transition(old(self).view(), s as int).0);
                lemma_wf_after_cursor_update(old(self).view(), s as int, (cur + 1) as u64);
                assert(event@ == old(self)@.history[cur as int]);
            }
            RecvOutcome::Event(event)
        } else {
            proof {
                assert(self.view() =~= recv_transition(old(self).view(), s as int).0);
            }
            RecvOutcome::Empty
        }
    }

    /// A well-formed bus's abstract state satisfies `bus_wf`, and its
    /// history length fits the publish counter: whoever holds the bus can
    /// discharge the premises of the spec-level lemmas from `inv` alone.
    pub proof fn lemma_inv_implies_wf(&self)
        requires
            self.inv(),
        ensures
            bus_wf(self@),
            self@.history.len() <= u64::MAX,
    {
    }

    /// How many events were ever published.
    pub fn published_count(&self) -> (n: u64)
        requires
            self.inv(),
        ensures
            n as int == self@.history.len(),
    {
        self.published
    }

    /// How many subscriptions are live.
    pub fn subscriber_count(&self) -> (n: usize)
        requires
            self.inv(),
        ensures
            n as int == bus_active_count(self@),
    {
        let mut n: usize = 0;
        let mut i: usize = 0;
        while i < self.cursors.len()
            invariant
                i <= self.cursors@.len(),
                n as int == count_some(self.cursors@.subrange(0, i as int)),
                n <= i,
            decreases self.cursors@.len() - i,
        {
            proof {
                assert(self.cursors@.subrange(0, i as int + 1) =~= self.cursors@.subrange(
                    0,
                    i as int,
                ).push(self.cursors@[i as int]));
                lemma_count_some_push(
                    self.cursors@.subrange(0, i as int),
                    self.cursors@[i as int],
                );
            }
            if self.cursors[i].is_some() {
                n = n + 1;
            }
            i = i + 1;
        }
        proof {
            assert(self.cursors@.subrange(0, self.cursors@.len() as int) =~= self.cursors@);
        }
        n
    }
}

/// Fan-out with a bounded backlog: one publish appends the event to every
/// live subscriber's pending window, in publish order; a subscriber already
/// holding `BACKLOG_CAPACITY` pending events loses exactly its oldest one
/// to admit the new event.
pub proof fn lemma_publish_fanout(b: BusView, e: EventView, s: int)
    requires
        bus_wf(b),
        bus_active(b, s),
    ensures
        bus_active(publish_transition(b, e), s),
        bus_pending(b, s).len() < BACKLOG_CAPACITY as int ==> bus_pending(
            publish_transition(b, e),
            s,
        ) == bus_pending(b, s).push(e),
        bus_pending(b, s).len() == BACKLOG_CAPACITY as int ==> bus_pending(
            publish_transition(b, e),
            s,
        ) == bus_pending(b, s).drop_first().push(e),
{
    let b2 = publish_transition(b, e);
    let c = cursor_pos(b, s);
    let fl = bus_floor(b);
    let lo = if c < fl {
        fl
    } else {
        c
    };
    let fl2 = bus_floor(b2);
    let lo2 = if c < fl2 {
        fl2
    } else {
        c
    };
    assert(bus_pending(b, s).len() == b.history.len() - lo);
    if bus_pending(b, s).len() < BACKLOG_CAPACITY as int {
        assert(lo2 == lo);
        assert(bus_pending(b2, s) =~= bus_pending(b, s).push(e));
    } else {
        assert(lo == fl && c <= fl);
        assert(fl2 == fl + 1);
        assert(lo2 == fl + 1);
        assert(bus_pending(b2, s) =~= bus_pending(b, s).drop_first().push(e));
    }
}

/// A subscriber past its backlog capacity is not evicted and does not stall
/// the publisher: after any further publish its pending window still ends
/// with the new event, it holds at most `BACKLOG_CAPACITY` events, and only
/// the oldest event was lost.
pub proof fn lemma_slow_subscriber_still_receives(b: BusView, e: EventView, s: int)
    requires
        bus_wf(b),
        bus_active(b, s),
    ensures
        bus_pending(publish_transition(b, e), s).len() <= BACKLOG_CAPACITY as int,
        bus_pending(publish_transition(b, e), s).last() == e,
        bus_missed(publish_transition(b, e), s) == bus_missed(b, s) + (if bus_pending(b, s).len()
            == BACKLOG_CAPACITY as int {
            1int
        } else {
            0int
        }),
{
    lemma_publish_fanout(b, e, s);
    let b2 = publish_transition(b, e);
    assert(bus_pending(b2, s).last() == e);
}

/// No reordering, only gaps: what a subscriber has yet to receive is
/// always one contiguous slice of the publish history, ending at the
/// newest event — so among the events it actually receives, delivery
/// order is publish order.
pub proof fn lemma_pending_is_history_window(b: BusView, s: int)
    requires
        bus_wf(b),
        bus_active(b, s),
    ensures
        exists|lo: int|
            0 <= lo <= b.history.len() && bus_pending(b, s) == b.history.subrange(
                lo,
                b.history.len() as int,
            ),
{
    let c = cursor_pos(b, s);
    let lo = if c < bus_floor(b) {
        bus_floor(b)
    } else {
        c
    };
    assert(0 <= lo <= b.history.len() && bus_pending(b, s) == b.history.subrange(
        lo,
        b.history.len() as int,
    ));
}

/// Delivery takes the head of the pending window: a subscriber that is not
/// lagging receives exactly its oldest pending event, and its window
/// shrinks by that one event — publish order, one at a time.
pub proof fn lemma_recv_delivers_pending_head(b: BusView, s: int)
    requires
        bus_wf(b),
        b.history.len() <= u64::MAX,
        bus_active(b, s),
        bus_missed(b, s) == 0,
        bus_pending(b, s).len() > 0,
    ensures
        recv_transition(b, s).1 == RecvView::Event(bus_pending(b, s)[0]),
        bus_pending(recv_transition(b, s).0, s) == bus_pending(b, s).drop_first(),
        bus_active(recv_transition(b, s).0, s),
{
    let c = cursor_pos(b, s);
    let b2 = recv_transition(b, s).0;
    assert(bus_pending(b2, s) =~= bus_pending(b, s).drop_first());
}

/// Catching up after a lag: the subscriber is told exactly how many events
/// it lost, keeps every event still retained, and is no longer behind.
pub proof fn lemma_recv_reports_lag_and_catches_up(b: BusView, s: int)
    requires
        bus_wf(b),
        b.history.len() <= u64::MAX,
        bus_active(b, s),
        bus_missed(b, s) > 0,
    ensures
        recv_transition(b, s).1 == RecvView::Lagged(bus_missed(b, s) as u64),
        bus_pending(recv_transition(b, s).0, s) == bus_pending(b, s),
        bus_missed(recv_transition(b, s).0, s) == 0,
        bus_active(recv_transition(b, s).0, s),
{
    let b2 = recv_transition(b, s).0;
    assert(bus_pending(b2, s) =~= bus_pending(b, s));
}

/// Opening a subscription and releasing it returns the subscriber count to
/// its baseline; the slot is dead afterwards.
pub proof fn lemma_subscription_lifecycle(b: BusView)
    ensures
        bus_active(subscribe_transition(b), b.cursors.len() as int),
        bus_active_count(subscribe_transition(b)) == bus_active_count(b) + 1,
        bus_active_count(
            unsubscribe_transition(subscribe_transition(b), b.cursors.len() as int),
        ) == bus_active_count(b),
        !bus_active(
            unsubscribe_transition(subscribe_transition(b), b.cursors.len() as int),
            b.cursors.len() as int,
        ),
{
    let s = b.cursors.len() as int;
    let b1 = subscribe_transition(b);
    lemma_count_some_push(b.cursors, Some(b.history.len() as u64));
    lemma_count_some_release(b1.cursors, s);
}


/// One step of a subscriber's life on the bus: some event is published, or
/// the subscriber takes its next pending event.
pub enum BusOp {
    Publish(EventView),
    Recv,
}

/// Apply one step for subscriber `s`: the next state, and what (if
/// anything) was delivered to `s`.
pub open spec fn apply_bus_op(b: BusView, s: int, op: BusOp) -> (BusView, Seq<EventView>) {
    match op {
        BusOp::Publish(e) => (publish_transition(b, e), Seq::<EventView>::empty()),
        BusOp::Recv => {
            let (b2, r) = recv_transition(b, s);
            match r {
                RecvView::Event(e) => (b2, seq![e]),
                RecvView::Lagged(_) => (b2, Seq::<EventView>::empty()),
                RecvView::Empty => (b2, Seq::<EventView>::empty()),
            }
        },
    }
}

/// Run a whole interleaving of publishes and receives; the second component
/// is the sequence of events delivered to `s`, in delivery order.
pub open spec fn run_bus(b: BusView, s: int, ops: Seq<BusOp>) -> (BusView, Seq<EventView>)
    decreases ops.len(),
{
    if ops.len() == 0 {
        (b, Seq::<EventView>::empty())
    } else {
        let (b1, d1) = apply_bus_op(b, s, ops[0]);
        let (b2, d2) = run_bus(b1, s, ops.drop_first());
        (b2, d1 + d2)
    }
}

/// The events a run publishes, in publish order.
pub open spec fn published_in(ops: Seq<BusOp>) -> Seq<EventView>
    decreases ops.len(),
{
    if ops.len() == 0 {
        Seq::<EventView>::empty()
    } else {
        (match ops[0] {
            BusOp::Publish(e) => seq![e],
            BusOp::Recv => Seq::<EventView>::empty(),
        }) + published_in(ops.drop_first())
    }
}

/// Whether subscriber `s` still has room in its backlog at every publish of
/// the run.
pub open spec fn within_capacity(b: BusView, s: int, ops: Seq<BusOp>) -> bool
    decreases ops.len(),
{
    if ops.len() == 0 {
        true
    } else {
        ((ops[0] matches BusOp::Publish(_)) ==> bus_pending(b, s).len() < BACKLOG_CAPACITY as int)
            && within_capacity(apply_bus_op(b, s, ops[0]).0, s, ops.drop_first())
    }
}

/// No loss and no reordering within capacity: along any interleaving of
/// publishes and receives in which subscriber `s` never overflows its
/// backlog, the events delivered to `s`, followed by what is still pending,
/// are exactly its initial pending window followed by every event the run
/// published, in publish order. This is what the outbound relay hands the
/// connection, one delivered event per message.
pub proof fn lemma_within_capacity_no_loss(b: BusView, s: int, ops: Seq<BusOp>)
    requires
        bus_wf(b),
        bus_active(b, s),
        bus_missed(b, s) == 0,
        b.history.len() + ops.len() <= u64::MAX,
        within_capacity(b, s, ops),
    ensures
        ({
            let (bf, delivered) = run_bus(b, s, ops);
            &&& delivered + bus_pending(bf, s) == bus_pending(b, s) + published_in(ops)
            &&& bus_wf(bf)
            &&& bus_active(bf, s)
            &&& bus_missed(bf, s) == 0
        }),
    decreases ops.len(),
{
    let pend = bus_pending(b, s);
    if ops.len() == 0 {
        assert(Seq::<EventView>::empty() + pend =~= pend);
        assert(pend + Seq::<EventView>::empty() =~= pend);
    } else {
        let op = ops[0];
        let rest = ops.drop_first();
        let b1 = apply_bus_op(b, s, op).0;
        let d1 = apply_bus_op(b, s, op).1;
        let bf = run_bus(b1, s, rest).0;
        let d2 = run_bus(b1, s, rest).1;
        assert(run_bus(b, s, ops) == (bf, d1 + d2));
        match op {
            BusOp::Publish(e) => {
                lemma_publish_fanout(b, e, s);
                lemma_slow_subscriber_still_receives(b, e, s);
                lemma_wf_after_publish(b, e);
                lemma_within_capacity_no_loss(b1, s, rest);
                assert(bus_pending(b1, s) == pend.push(e));
                assert(d2 + bus_pending(bf, s) == pend.push(e) + published_in(rest));
                assert(d1 + d2 =~= d2);
                assert(pend.push(e) =~= pend + seq![e]);
                assert((pend + seq![e]) + published_in(rest) =~= pend + (seq![e] + published_in(
                    rest,
                )));
                assert(published_in(ops) == seq![e] + published_in(rest));
                assert((d1 + d2) + bus_pending(bf, s) =~= pend + published_in(ops));
            },
            BusOp::Recv => {
                assert(published_in(ops) =~= published_in(rest));
                if pend.len() > 0 {
                    lemma_recv_delivers_pending_head(b, s);
                    lemma_wf_after_cursor_update(b, s, (cursor_pos(b, s) + 1) as u64);
                    lemma_within_capacity_no_loss(b1, s, rest);
                    assert(d1 == seq![pend[0]]);
                    assert(bus_pending(b1, s) == pend.drop_first());
                    assert(d2 + bus_pending(bf, s) == pend.drop_first() + published_in(rest));
                    assert(seq![pend[0]] + pend.drop_first() =~= pend);
                    assert((d1 + d2) + bus_pending(bf, s) =~= d1 + (d2 + bus_pending(bf, s)));
                    assert(d1 + (pend.drop_first() + published_in(rest)) =~= (seq![pend[0]]
                        + pend.drop_first()) + published_in(rest));
                    assert((d1 + d2) + bus_pending(bf, s) =~= pend + published_in(ops));
                } else {
                    assert(b1 == b);
                    assert(d1 =~= Seq::<EventView>::empty());
                    lemma_within_capacity_no_loss(b1, s, rest);
                    assert((d1 + d2) + bus_pending(bf, s) =~= d2 + bus_pending(bf, s));
                    assert((d1 + d2) + bus_pending(bf, s) =~= pend + published_in(ops));
                }
            },
        }
    }
}

} // verus!
