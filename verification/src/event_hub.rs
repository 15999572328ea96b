//! The runtime's wake-up hub: every published event gets the next hub
//! sequence number and is offered to each subscriber whose filter matches.
//! A subscriber's queue is bounded; when it is full the event is counted as
//! missed instead of blocking the publisher. A dropped subscription is
//! removed the next time an event is offered to it.
use vstd::prelude::*;
use std::collections::VecDeque;

verus! {

pub const DEFAULT_SUBSCRIBER_CAPACITY: usize = 64;

/// The kind of object an event is about.
#[derive(Clone, Copy, Debug, PartialEq, Eq, Structural)]
pub enum EventObjectKind {
    Runtime,
    Task,
    Policy,
    Health,
    Artifact,
    Provider,
    Index,
}

#[derive(Debug)]
pub struct RuntimeEvent {
    pub sequence: u64,
    pub object_kind: EventObjectKind,
    pub object_ref: String,
    pub object_sequence: Option<u64>,
    pub kind: String,
    pub safe_summary: Option<String>,
}

impl RuntimeEvent {
    pub fn duplicate(&self) -> (r: RuntimeEvent)
        ensures
            r == *self,
    {
        let summary = match &self.safe_summary {
            Some(s) => Some(s.clone()),
            None => None,
        };
        RuntimeEvent {
            sequence: self.sequence,
            object_kind: self.object_kind,
            object_ref: self.object_ref.clone(),
            object_sequence: self.object_sequence,
            kind: self.kind.clone(),
            safe_summary: summary,
        }
    }
}

/// Restricts a subscription to the events of one object.
#[derive(Debug)]
pub struct EventFilter {
    pub object_kind: EventObjectKind,
    pub object_ref: String,
}

#[derive(Clone, Copy, Debug, PartialEq, Eq, Structural)]
pub struct PublishOutcome {
    pub delivered: usize,
    pub lagging: usize,
    pub disconnected: usize,
}

/// Why nothing was received.
#[derive(Clone, Copy, Debug, PartialEq, Eq, Structural)]
pub enum RecvError {
    Empty,
    Disconnected,
}

pub open spec fn filter_matches(f: Option<EventFilter>, e: RuntimeEvent) -> bool {
    match f {
        None => true,
        Some(f) => f.object_kind == e.object_kind && f.object_ref@ == e.object_ref@,
    }
}

fn check_filter(f: &Option<EventFilter>, e: &RuntimeEvent) -> (r: bool)
    ensures
        r == filter_matches(*f, *e),
{
    match f {
        None => true,
        Some(f) => f.object_kind == e.object_kind && f.object_ref == e.object_ref,
    }
}

/// The model of one subscriber.
pub struct SubscriberView {
    pub id: u64,
    pub filter: Option<EventFilter>,
    pub queue: Seq<RuntimeEvent>,
    pub missed: u64,
    pub connected: bool,
}

/// The model of the hub.
pub struct HubView {
    pub next_sequence: u64,
    pub next_id: u64,
    pub capacity: nat,
    pub subscribers: Seq<SubscriberView>,
}

struct Subscriber {
    id: u64,
    filter: Option<EventFilter>,
    queue: VecDeque<RuntimeEvent>,
    missed: u64,
    connected: bool,
}

impl Subscriber {
    closed spec fn model(self) -> SubscriberView {
        SubscriberView {
            id: self.id,
            filter: self.filter,
            queue: self.queue@,
            missed: self.missed,
            connected: self.connected,
        }
    }
}

pub open spec fn wrapping_inc(x: u64) -> u64 {
    if x == u64::MAX {
        0
    } else {
        (x + 1) as u64
    }
}

/// What offering event `e` does to one subscriber; `None` means it is removed.
pub open spec fn offer(s: SubscriberView, e: RuntimeEvent, cap: nat) -> Option<SubscriberView> {
    if !filter_matches(s.filter, e) {
        Some(s)
    } else if !s.connected {
        None
    } else if s.queue.len() < cap {
        Some(SubscriberView { queue: s.queue.push(e), ..s })
    } else {
        Some(SubscriberView { missed: wrapping_inc(s.missed), ..s })
    }
}

/// Offers `e` to every subscriber in order.
pub open spec fn offer_all(subs: Seq<SubscriberView>, e: RuntimeEvent, cap: nat) -> Seq<SubscriberView>
    decreases subs.len(),
{
    if subs.len() == 0 {
        Seq::empty()
    } else {
        let rest = offer_all(subs.drop_last(), e, cap);
        match offer(subs.last(), e, cap) {
            Some(x) => rest.push(x),
            None => rest,
        }
    }
}

pub open spec fn count_delivered(subs: Seq<SubscriberView>, e: RuntimeEvent, cap: nat) -> nat
    decreases subs.len(),
{
    if subs.len() == 0 {
        0
    } else {
        let s = subs.last();
        count_delivered(subs.drop_last(), e, cap) + if filter_matches(s.filter, e) && s.connected
            && s.queue.len() < cap {
            1nat
        } else {
            0nat
        }
    }
}

pub open spec fn count_lagging(subs: Seq<SubscriberView>, e: RuntimeEvent, cap: nat) -> nat
    decreases subs.len(),
{
    if subs.len() == 0 {
        0
    } else {
        let s = subs.last();
        count_lagging(subs.drop_last(), e, cap) + if filter_matches(s.filter, e) && s.connected
            && s.queue.len() >= cap {
            1nat
        } else {
            0nat
        }
    }
}

pub open spec fn count_disconnected(subs: Seq<SubscriberView>, e: RuntimeEvent) -> nat
    decreases subs.len(),
{
    if subs.len() == 0 {
        0
    } else {
        let s = subs.last();
        count_disconnected(subs.drop_last(), e) + if filter_matches(s.filter, e) && !s.connected {
            1nat
        } else {
            0nat
        }
    }
}

pub open spec fn ids_increasing(subs: Seq<SubscriberView>) -> bool {
    forall|i: int, j: int| 0 <= i < j < subs.len() ==> subs[i].id < subs[j].id
}

pub open spec fn index_of(subs: Seq<SubscriberView>, id: u64) -> Option<int> {
    if exists|i: int| 0 <= i < subs.len() && (#[trigger] subs[i]).id == id {
        Some(choose|i: int| 0 <= i < subs.len() && (#[trigger] subs[i]).id == id)
    } else {
        None
    }
}

/// The hub is a plain value: each subscriber's queue lives in the hub, and
/// a daemon that shares it between threads holds it behind one lock, so
/// every publish, receive and unsubscribe is one step on this value.
pub struct EventHub {
    next_sequence: u64,
    next_id: u64,
    capacity: usize,
    subscribers: Vec<Subscriber>,
}

impl View for EventHub {
    type V = HubView;

    closed spec fn view(&self) -> HubView {
        HubView {
            next_sequence: self.next_sequence,
            next_id: self.next_id,
            capacity: self.capacity as nat,
            subscribers: self.subscribers@.map_values(|s: Subscriber| s.model()),
        }
    }
}

/// The hub's invariant: a positive capacity, no queue over capacity, and
/// subscriber ids issued in increasing order below the next id.
pub open spec fn hub_wf(h: HubView) -> bool {
    &&& h.capacity > 0
    &&& ids_increasing(h.subscribers)
    &&& forall|i: int| 0 <= i < h.subscribers.len() ==> (#[trigger] h.subscribers[i]).id < h.next_id
    &&& forall|i: int| 0 <= i < h.subscribers.len() ==> (#[trigger] h.subscribers[i]).queue.len() <= h.capacity
}

proof fn lemma_offer_all_shape(subs: Seq<SubscriberView>, e: RuntimeEvent, cap: nat, bound: u64)
    requires
        ids_increasing(subs),
        forall|i: int| 0 <= i < subs.len() ==> (#[trigger] subs[i]).id < bound,
        forall|i: int| 0 <= i < subs.len() ==> (#[trigger] subs[i]).queue.len() <= cap,
    ensures
        ids_increasing(offer_all(subs, e, cap)),
        forall|i: int| 0 <= i < offer_all(subs, e, cap).len() ==> (#[trigger] offer_all(subs, e, cap)[i]).id < bound,
        forall|i: int| 0 <= i < offer_all(subs, e, cap).len() ==> (#[trigger] offer_all(subs, e, cap)[i]).queue.len() <= cap,
        subs.len() > 0 ==> forall|i: int| 0 <= i < offer_all(subs, e, cap).len() ==> (#[trigger] offer_all(subs, e, cap)[i]).id <= subs.last().id,
    decreases subs.len(),
{
    if subs.len() > 0 {
        let init = subs.drop_last();
        lemma_offer_all_shape(init, e, cap, bound);
        if init.len() > 0 {
            assert(init.last().id < subs.last().id);
        }
    }
}

impl EventHub {
    /// Creates a hub whose subscriber queues hold `capacity` events.
    pub fn new(capacity: usize) -> (r: EventHub)
        requires
            capacity > 0,
        ensures
            hub_wf(r@),
            r@.capacity == capacity,
            r@.next_sequence == 1,
            r@.next_id == 0,
            r@.subscribers.len() == 0,
    {
        let h = EventHub { next_sequence: 1, next_id: 0, capacity, subscribers: Vec::new() };
        assert(h@.subscribers =~= Seq::<SubscriberView>::empty());
        h
    }

    pub fn with_default_capacity() -> (r: EventHub)
        ensures
            hub_wf(r@),
            r@.capacity == DEFAULT_SUBSCRIBER_CAPACITY,
            r@.next_sequence == 1,
            r@.next_id == 0,
            r@.subscribers.len() == 0,
    {
        EventHub::new(DEFAULT_SUBSCRIBER_CAPACITY)
    }

    fn subscribe_filtered(&mut self, filter: Option<EventFilter>) -> (id: u64)
        requires
            hub_wf(old(self)@),
            old(self)@.next_id < u64::MAX,
        ensures
            hub_wf(final(self)@),
            id == old(self)@.next_id,
            final(self)@.next_id == old(self)@.next_id + 1,
            final(self)@.next_sequence == old(self)@.next_sequence,
            final(self)@.capacity == old(self)@.capacity,
            final(self)@.subscribers == old(self)@.subscribers.push(
                SubscriberView { id, filter, queue: Seq::empty(), missed: 0, connected: true },
            ),
    {
        let id = self.next_id;
        let s = Subscriber { id, filter, queue: VecDeque::new(), missed: 0, connected: true };
        self.subscribers.push(s);
        self.next_id = self.next_id + 1;
        assert(self@.subscribers =~= old(self)@.subscribers.push(
            SubscriberView { id, filter, queue: Seq::empty(), missed: 0, connected: true },
        ));
        id
    }

    /// Subscribes to every event; returns the subscription's id.
    pub fn subscribe(&mut self) -> (id: u64)
        requires
            hub_wf(old(self)@),
            old(self)@.next_id < u64::MAX,
        ensures
            hub_wf(final(self)@),
            id == old(self)@.next_id,
            final(self)@.next_id == old(self)@.next_id + 1,
            final(self)@.next_sequence == old(self)@.next_sequence,
            final(self)@.capacity == old(self)@.capacity,
            final(self)@.subscribers == old(self)@.subscribers.push(
                SubscriberView { id, filter: None, queue: Seq::empty(), missed: 0, connected: true },
            ),
    {
        self.subscribe_filtered(None)
    }

    /// Subscribes to the events of one object.
    pub fn subscribe_object(&mut self, object_kind: EventObjectKind, object_ref: String) -> (id: u64)
        requires
            hub_wf(old(self)@),
            old(self)@.next_id < u64::MAX,
        ensures
            hub_wf(final(self)@),
            id == old(self)@.next_id,
            final(self)@.next_id == old(self)@.next_id + 1,
            final(self)@.next_sequence == old(self)@.next_sequence,
            final(self)@.capacity == old(self)@.capacity,
            final(self)@.subscribers == old(self)@.subscribers.push(
                SubscriberView {
                    id,
                    filter: Some(EventFilter { object_kind, object_ref }),
                    queue: Seq::empty(),
                    missed: 0,
                    connected: true,
                },
            ),
    {
        self.subscribe_filtered(Some(EventFilter { object_kind, object_ref }))
    }

    /// Number of subscriptions not yet removed.
    pub fn subscriber_count(&self) -> (r: usize)
        ensures
            r == self@.subscribers.len(),
    {
        self.subscribers.len()
    }

    /// Whether another subscription can still be given an id of its own.
    pub fn can_subscribe(&self) -> (r: bool)
        ensures
            r == (self@.next_id < u64::MAX),
    {
        self.next_id < u64::MAX
    }

    /// Publishes a runtime event about the daemon itself.
    pub fn publish(&mut self, kind: String, safe_summary: Option<String>) -> (r: PublishOutcome)
        requires
            hub_wf(old(self)@),
        ensures
            hub_wf(final(self)@),
            final(self)@.next_sequence == wrapping_inc(old(self)@.next_sequence),
            final(self)@.next_id == old(self)@.next_id,
            final(self)@.capacity == old(self)@.capacity,
            exists|e: RuntimeEvent|
                #![trigger offer_all(old(self)@.subscribers, e, old(self)@.capacity)]
                {
                    &&& e.sequence == old(self)@.next_sequence
                    &&& e.object_kind == EventObjectKind::Runtime
                    &&& e.object_ref@ == "portusd"@
                    &&& e.object_sequence is None
                    &&& e.kind == kind
                    &&& e.safe_summary == safe_summary
                    &&& final(self)@.subscribers == offer_all(old(self)@.subscribers, e, old(self)@.capacity)
                    &&& r.delivered == count_delivered(old(self)@.subscribers, e, old(self)@.capacity)
                    &&& r.lagging == count_lagging(old(self)@.subscribers, e, old(self)@.capacity)
                    &&& r.disconnected == count_disconnected(old(self)@.subscribers, e)
                },
    {
        let object_ref = "portusd".to_string();
        self.publish_object(EventObjectKind::Runtime, object_ref, None, kind, safe_summary)
    }

    /// Publishes a committed task event; `task_id` is the task's identifier.
    pub fn publish_task_event(
        &mut self,
        task_id: String,
        sequence: u64,
        kind: String,
        safe_summary: Option<String>,
    ) -> (r: PublishOutcome)
        requires
            hub_wf(old(self)@),
        ensures
            hub_wf(final(self)@),
            final(self)@.next_sequence == wrapping_inc(old(self)@.next_sequence),
            ({
                let e = RuntimeEvent {
                    sequence: old(self)@.next_sequence,
                    object_kind: EventObjectKind::Task,
                    object_ref: task_id,
                    object_sequence: Some(sequence),
                    kind,
                    safe_summary,
                };
                &&& final(self)@.subscribers == offer_all(old(self)@.subscribers, e, old(self)@.capacity)
                &&& r.delivered == count_delivered(old(self)@.subscribers, e, old(self)@.capacity)
                &&& r.lagging == count_lagging(old(self)@.subscribers, e, old(self)@.capacity)
                &&& r.disconnected == count_disconnected(old(self)@.subscribers, e)
            }),
            final(self)@.next_id == old(self)@.next_id,
            final(self)@.capacity == old(self)@.capacity,
    {
        self.publish_object(EventObjectKind::Task, task_id, Some(sequence), kind, safe_summary)
    }

    /// Publishes an event about an object: it takes the next hub sequence and
    /// is offered to every subscriber in order.
    pub fn publish_object(
        &mut self,
        object_kind: EventObjectKind,
        object_ref: String,
        object_sequence: Option<u64>,
        kind: String,
        safe_summary: Option<String>,
    ) -> (r: PublishOutcome)
        requires
            hub_wf(old(self)@),
        ensures
            hub_wf(final(self)@),
            final(self)@.next_sequence == wrapping_inc(old(self)@.next_sequence),
            final(self)@.next_id == old(self)@.next_id,
            final(self)@.capacity == old(self)@.capacity,
            ({
                let e = RuntimeEvent {
                    sequence: old(self)@.next_sequence,
                    object_kind,
                    object_ref,
                    object_sequence,
                    kind,
                    safe_summary,
                };
                &&& final(self)@.subscribers == offer_all(old(self)@.subscribers, e, old(self)@.capacity)
                &&& r.delivered == count_delivered(old(self)@.subscribers, e, old(self)@.capacity)
                &&& r.lagging == count_lagging(old(self)@.subscribers, e, old(self)@.capacity)
                &&& r.disconnected == count_disconnected(old(self)@.subscribers, e)
            }),
    {
        let sequence = self.next_sequence;
        self.next_sequence = if sequence == u64::MAX {
            0
        } else {
            sequence + 1
        };
        let event = RuntimeEvent {
            sequence,
            object_kind,
            object_ref,
            object_sequence,
            kind,
            safe_summary,
        };
        let ghost e = event;
        let ghost cap = self.capacity as nat;
        let ghost olds = old(self)@.subscribers;
        proof {
            lemma_offer_all_shape(olds, e, cap, self.next_id);
        }
        let mut old_subs: Vec<Subscriber> = Vec::new();
        std::mem::swap(&mut old_subs, &mut self.subscribers);
        assert(old_subs@.map_values(|s: Subscriber| s.model()) =~= olds.skip(0));
        let mut kept: Vec<Subscriber> = Vec::new();
        let mut delivered: usize = 0;
        let mut lagging: usize = 0;
        let mut disconnected: usize = 0;
        let n = old_subs.len();
        let mut i: usize = 0;
        while i < n
            invariant
                n == olds.len(),
                old_subs@.map_values(|s: Subscriber| s.model()) == olds.skip(i as int),
                i <= n,
                kept@.map_values(|s: Subscriber| s.model()) == offer_all(olds.take(i as int), e, cap),
                delivered == count_delivered(olds.take(i as int), e, cap),
                lagging == count_lagging(olds.take(i as int), e, cap),
                disconnected == count_disconnected(olds.take(i as int), e),
                delivered + lagging + disconnected <= i,
                cap == self.capacity as nat,
                event == e,
            decreases n - i,
        {
            let ghost before = olds.take(i as int);
            assert(olds.take(i + 1).drop_last() =~= before);
            assert(olds.take(i + 1).last() == olds.skip(i as int)[0]);
            assert(old_subs@.map_values(|s: Subscriber| s.model()).len() == olds.skip(i as int).len());
            assert(old_subs@.len() > 0);
            assert(old_subs@.map_values(|s: Subscriber| s.model())[0] == old_subs@[0].model());
            let ghost prev = old_subs@;
            let mut s = old_subs.remove(0);
            proof {
                assert(old_subs@ =~= prev.subrange(1, prev.len() as int));
                let m = old_subs@.map_values(|s: Subscriber| s.model());
                let pm = prev.map_values(|s: Subscriber| s.model());
                assert forall|j: int| 0 <= j < m.len() implies m[j] == olds.skip(i + 1)[j] by {
                    assert(m[j] == prev[j + 1].model());
                    assert(pm[j + 1] == prev[j + 1].model());
                    assert(pm[j + 1] == olds.skip(i as int)[j + 1]);
                }
                assert(m =~= olds.skip(i + 1));
            }
            if !check_filter(&s.filter, &event) {
                kept.push(s);
            } else if !s.connected {
                disconnected = disconnected + 1;
            } else if s.queue.len() < self.capacity {
                s.queue.push_back(event.duplicate());
                kept.push(s);
                delivered = delivered + 1;
            } else {
                s.missed = if s.missed == u64::MAX {
                    0
                } else {
                    s.missed + 1
                };
                kept.push(s);
                lagging = lagging + 1;
            }
            proof {
                let k = kept@.map_values(|s: Subscriber| s.model());
                assert(k =~= offer_all(olds.take(i + 1), e, cap));
            }
            i = i + 1;
        }
        assert(olds.take(n as int) =~= olds);
        self.subscribers = kept;
        PublishOutcome { delivered, lagging, disconnected }
    }

    /// Takes the oldest queued event of a subscription.
    pub fn try_recv(&mut self, id: u64) -> (r: Result<RuntimeEvent, RecvError>)
        requires
            hub_wf(old(self)@),
        ensures
            hub_wf(final(self)@),
            final(self)@.next_sequence == old(self)@.next_sequence,
            final(self)@.next_id == old(self)@.next_id,
            final(self)@.capacity == old(self)@.capacity,
            match index_of(old(self)@.subscribers, id) {
                None => r == Err::<RuntimeEvent, RecvError>(RecvError::Disconnected)
                    && final(self)@.subscribers == old(self)@.subscribers,
                Some(k) => {
                    let s = old(self)@.subscribers[k];
                    if s.queue.len() == 0 {
                        r == Err::<RuntimeEvent, RecvError>(if s.connected {
                            RecvError::Empty
                        } else {
                            RecvError::Disconnected
                        }) && final(self)@.subscribers == old(self)@.subscribers
                    } else {
                        r == Ok::<RuntimeEvent, RecvError>(s.queue[0])
                            && final(self)@.subscribers == old(self)@.subscribers.update(
                            k,
                            SubscriberView { queue: s.queue.drop_first(), ..s },
                        )
                    }
                },
            },
    {
        match self.find(id) {
            None => Err(RecvError::Disconnected),
            Some(k) => {
                let ghost olds = self@.subscribers;
                let mut s = self.subscribers.remove(k);
                let front = s.queue.pop_front();
                let connected = s.connected;
                self.subscribers.insert(k, s);
                proof {
                    let k2 = k as int;
                    assert(self@.subscribers =~= olds.update(
                        k2,
                        SubscriberView { queue: s.queue@, ..olds[k2] },
                    ));
                    if olds[k2].queue.len() > 0 {
                        assert(s.queue@ =~= olds[k2].queue.drop_first());
                    } else {
                        assert(self@.subscribers =~= olds);
                    }
                }
                match front {
                    Some(e) => Ok(e),
                    None => if connected {
                        Err(RecvError::Empty)
                    } else {
                        Err(RecvError::Disconnected)
                    },
                }
            },
        }
    }

    /// Returns the number of events a subscription missed since the last call,
    /// and resets it.
    pub fn take_missed(&mut self, id: u64) -> (r: u64)
        requires
            hub_wf(old(self)@),
        ensures
            hub_wf(final(self)@),
            final(self)@.next_sequence == old(self)@.next_sequence,
            final(self)@.next_id == old(self)@.next_id,
            final(self)@.capacity == old(self)@.capacity,
            match index_of(old(self)@.subscribers, id) {
                None => r == 0 && final(self)@.subscribers == old(self)@.subscribers,
                Some(k) => r == old(self)@.subscribers[k].missed && final(self)@.subscribers
                    == old(self)@.subscribers.update(
                    k,
                    SubscriberView { missed: 0, ..old(self)@.subscribers[k] },
                ),
            },
    {
        match self.find(id) {
            None => 0,
            Some(k) => {
                let ghost olds = self@.subscribers;
                let mut s = self.subscribers.remove(k);
                let missed = s.missed;
                s.missed = 0;
                self.subscribers.insert(k, s);
                assert(self@.subscribers =~= olds.update(
                    k as int,
                    SubscriberView { missed: 0, ..olds[k as int] },
                ));
                missed
            },
        }
    }

    /// Drops a subscription: its queue is discarded and the hub removes it the
    /// next time an event is offered to it.
    pub fn unsubscribe(&mut self, id: u64)
        requires
            hub_wf(old(self)@),
        ensures
            hub_wf(final(self)@),
            final(self)@.next_sequence == old(self)@.next_sequence,
            final(self)@.next_id == old(self)@.next_id,
            final(self)@.capacity == old(self)@.capacity,
            match index_of(old(self)@.subscribers, id) {
                None => final(self)@.subscribers == old(self)@.subscribers,
                Some(k) => final(self)@.subscribers == old(self)@.subscribers.update(
                    k,
                    SubscriberView {
                        connected: false,
                        queue: Seq::empty(),
                        ..old(self)@.subscribers[k]
                    },
                ),
            },
    {
        match self.find(id) {
            None => {},
            Some(k) => {
                let ghost olds = self@.subscribers;
                let mut s = self.subscribers.remove(k);
                s.connected = false;
                s.queue = VecDeque::new();
                self.subscribers.insert(k, s);
                assert(self@.subscribers =~= olds.update(
                    k as int,
                    SubscriberView { connected: false, queue: Seq::empty(), ..olds[k as int] },
                ));
            },
        }
    }

    fn find(&self, id: u64) -> (r: Option<usize>)
        requires
            hub_wf(self@),
        ensures
            match r {
                None => index_of(self@.subscribers, id) is None,
                Some(k) => index_of(self@.subscribers, id) == Some(k as int) && k
                    < self@.subscribers.len(),
            },
    {
        let mut i: usize = 0;
        while i < self.subscribers.len()
            invariant
                hub_wf(self@),
                i <= self@.subscribers.len(),
                forall|j: int| 0 <= j < i ==> (#[trigger] self@.subscribers[j]).id != id,
            decreases self@.subscribers.len() - i,
        {
            if self.subscribers[i].id == id {
                proof {
                    let subs = self@.subscribers;
                    assert(subs[i as int].id == id);
                    let c = choose|c: int| 0 <= c < subs.len() && (#[trigger] subs[c]).id == id;
                    if c != i {
                        assert(subs[c].id != subs[i as int].id);
                    }
                }
                return Some(i);
            }
            i = i + 1;
        }
        None
    }
}

/// Law: an event reaches a subscriber only if it matches the subscriber's
/// filter, and it lands at the back of the queue, after everything queued
/// before it; a connected matching subscriber never loses the event silently:
/// it is queued or counted as missed.
pub proof fn law_offer_respects_filters(s: SubscriberView, e: RuntimeEvent, cap: nat)
    ensures
        !filter_matches(s.filter, e) ==> offer(s, e, cap) == Some(s),
        filter_matches(s.filter, e) && s.connected ==> offer(s, e, cap) is Some && ({
            let t = offer(s, e, cap)->0;
            ||| t.queue == s.queue.push(e) && t.missed == s.missed
            ||| t.queue == s.queue && t.missed == wrapping_inc(s.missed) && s.queue.len() >= cap
        }),
        filter_matches(s.filter, e) && !s.connected ==> offer(s, e, cap) is None,
{
}

/// Law: a subscription to one object hears only that object: an event about
/// another object, or an object of another kind, leaves the subscriber exactly
/// as it was, while an event about its own object reaches a connected
/// subscriber (queued, or counted as missed when its queue is full).
pub proof fn law_object_subscription_hears_only_its_object(s: SubscriberView, e: RuntimeEvent, cap: nat)
    requires
        s.filter is Some,
    ensures
        s.filter->0.object_ref@ != e.object_ref@ || s.filter->0.object_kind != e.object_kind
            ==> offer(s, e, cap) == Some(s),
        s.filter->0.object_ref@ == e.object_ref@ && s.filter->0.object_kind == e.object_kind
            && s.connected ==> (offer(s, e, cap) matches Some(t) && (t.queue == s.queue.push(e)
            || (t.queue == s.queue && t.missed == wrapping_inc(s.missed)))),
{
}

/// Law: a subscription without a filter hears every event while connected.
pub proof fn law_unfiltered_subscription_hears_everything(s: SubscriberView, e: RuntimeEvent, cap: nat)
    requires
        s.filter is None,
        s.connected,
    ensures
        offer(s, e, cap) matches Some(t) && (t.queue == s.queue.push(e) || (t.queue == s.queue
            && t.missed == wrapping_inc(s.missed))),
{
}

/// Law: every matching subscriber is counted exactly once as delivered,
/// lagging or disconnected.
pub proof fn law_publish_accounts_for_every_match(subs: Seq<SubscriberView>, e: RuntimeEvent, cap: nat)
    ensures
        count_delivered(subs, e, cap) + count_lagging(subs, e, cap) + count_disconnected(subs, e)
            == subs.filter(|s: SubscriberView| filter_matches(s.filter, e)).len(),
    decreases subs.len(),
{
    reveal_with_fuel(Seq::filter, 1);
    if subs.len() > 0 {
        law_publish_accounts_for_every_match(subs.drop_last(), e, cap);
    }
}

/// The hub's next sequence after `n` publishes starting from `s`.
pub open spec fn sequence_after(s: u64, n: nat) -> u64
    decreases n,
{
    if n == 0 {
        s
    } else {
        wrapping_inc(sequence_after(s, (n - 1) as nat))
    }
}

/// Law: successive publishes number their events one after another: the
/// `k`-th of a run of publishes starting at sequence `s` gets `s + k`, so a
/// later publish always has the greater sequence, until the counter wraps
/// past `u64::MAX` back to 0.
pub proof fn law_publish_sequences_increase(s: u64, k: nat)
    ensures
        s + k <= u64::MAX ==> sequence_after(s, k) == s + k,
        s + k == u64::MAX + 1 ==> sequence_after(s, k) == 0,
    decreases k,
{
    if k > 0 {
        law_publish_sequences_increase(s, (k - 1) as nat);
    }
}

/// Law: offering an event removes as many subscribers as it reports
/// disconnected, so the subscriber count drops by exactly that number.
pub proof fn law_publish_removes_only_disconnected(subs: Seq<SubscriberView>, e: RuntimeEvent, cap: nat)
    ensures
        offer_all(subs, e, cap).len() + count_disconnected(subs, e) == subs.len(),
    decreases subs.len(),
{
    if subs.len() > 0 {
        law_publish_removes_only_disconnected(subs.drop_last(), e, cap);
    }
}

} // verus!
