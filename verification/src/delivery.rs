//! The store-and-forward delivery queue: two bounded first-in first-out
//! buffers and the single slot for the item that is being published.
use crate::msg::Msg;
use crate::storage::{FmlGnssData, FmlNetSendType, FmlTempHumiData};
use vstd::prelude::*;

verus! {

/// One queued record: the identity it is published under and its two values.
pub type Record = (u16, i32, i32);

/// A bounded first-in first-out buffer of records, kept in a
/// `heapless::spsc::Queue` made for 128 slots.
#[verifier::external_body]
pub struct FmlDataQueue {
    inner: heapless::spsc::Queue<Record, 128>,
}

/// The records that a buffer holds, oldest first.
pub uninterp spec fn queue_items(q: FmlDataQueue) -> Seq<Record>;

/// The number of records that a buffer holds at most: one less than its slots.
pub const FML_DATA_QUEUE_CAPACITY: usize = 127;

/// Milliseconds after which a publish that was not acknowledged counts as failed.
pub const FML_NET_SEND_TIMEOUT_MS: u64 = 10_000;

/// `heapless::spsc::Queue::new`: an empty queue.
#[verifier::external_body]
fn queue_new() -> (q: FmlDataQueue)
    ensures
        queue_items(q) == Seq::<Record>::empty(),
{
    FmlDataQueue { inner: heapless::spsc::Queue::new() }
}

/// `heapless::spsc::Queue::enqueue`: appends the item where fewer than 127
/// are held; else leaves the queue as it is and hands the item back.
#[verifier::external_body]
fn queue_enqueue(q: &mut FmlDataQueue, item: Record) -> (r: Result<(), Record>)
    ensures
        r is Ok <==> queue_items(*old(q)).len() < 127,
        r is Ok ==> queue_items(*final(q)) == queue_items(*old(q)).push(item),
        r is Err ==> r->Err_0 == item && queue_items(*final(q)) == queue_items(*old(q)),
{
    q.inner.enqueue(item)
}

/// `heapless::spsc::Queue::dequeue`: takes the oldest item out, or returns
/// `None` and leaves the queue as it is where it holds none.
#[verifier::external_body]
fn queue_dequeue(q: &mut FmlDataQueue) -> (r: Option<Record>)
    ensures
        r is Some <==> queue_items(*old(q)).len() > 0,
        r is Some ==> r->0 == queue_items(*old(q))[0] && queue_items(*final(q)) == queue_items(*old(q)).drop_first(),
        r is None ==> queue_items(*final(q)) == queue_items(*old(q)),
{
    q.inner.dequeue()
}

/// `heapless::spsc::Queue::peek`: the oldest item, which stays in the queue,
/// or `None` where the queue holds none.
#[verifier::external_body]
fn queue_peek(q: &FmlDataQueue) -> (r: Option<Record>)
    ensures
        r is Some <==> queue_items(*q).len() > 0,
        r is Some ==> r->0 == queue_items(*q)[0],
{
    q.inner.peek().copied()
}

/// `heapless::spsc::Queue::len`: the number of items held, which is at most 127.
#[verifier::external_body]
fn queue_len(q: &FmlDataQueue) -> (r: usize)
    ensures
        r == queue_items(*q).len(),
        r <= 127,
{
    q.inner.len()
}

/// The delivery queue as contracts speak of it.
pub struct DeliveryView {
    /// Positions waiting to be published, oldest first.
    pub locations: Seq<FmlGnssData>,
    /// Temperature and humidity samples waiting to be published, oldest first.
    pub samples: Seq<FmlTempHumiData>,
    /// The item that is being published.
    pub in_flight: Option<FmlNetSendType>,
    /// When the item in flight was dispatched, in milliseconds.
    pub sent_at: u64,
}

pub open spec fn spec_location(r: Record) -> FmlGnssData {
    FmlGnssData { id: r.0, lat: r.1, lon: r.2 }
}

pub open spec fn spec_sample(r: Record) -> FmlTempHumiData {
    FmlTempHumiData { id: r.0, temp: r.1, humi: r.2 }
}

/// Whether the item in flight has waited for its acknowledgement longer than the timeout.
pub open spec fn spec_timed_out(v: DeliveryView, now: u64) -> bool {
    now > v.sent_at && now - v.sent_at > FML_NET_SEND_TIMEOUT_MS
}

/// The item that a dispatch takes: the oldest position, or the oldest sample
/// where no position waits.
pub open spec fn spec_pick(v: DeliveryView) -> Option<FmlNetSendType> {
    if v.locations.len() > 0 {
        Some(FmlNetSendType::Location(v.locations[0]))
    } else if v.samples.len() > 0 {
        Some(FmlNetSendType::TempHumi(v.samples[0]))
    } else {
        None
    }
}

/// A dispatch attempt at time `now`. It does nothing unless the session is
/// logged in, and nothing while an item is in flight and has not timed out.
/// Else the picked item, which stays in its buffer, goes in flight and is
/// handed out for publishing; where nothing waits the slot is left empty.
pub open spec fn spec_dispatch(v: DeliveryView, logined: bool, now: u64) -> (
    DeliveryView,
    Option<FmlNetSendType>,
) {
    if !logined || (v.in_flight is Some && !spec_timed_out(v, now)) {
        (v, None)
    } else {
        match spec_pick(v) {
            Some(item) => (DeliveryView { in_flight: Some(item), sent_at: now, ..v }, Some(item)),
            None => (DeliveryView { in_flight: None, ..v }, None),
        }
    }
}

/// An acknowledgement. A success takes the oldest item out of the buffer
/// that the item in flight came from; a failure takes nothing out. Either
/// way the slot is empty afterwards.
pub open spec fn spec_acknowledge(v: DeliveryView, finish: bool) -> DeliveryView {
    if !finish {
        DeliveryView { in_flight: None, ..v }
    } else {
        match v.in_flight {
            Some(FmlNetSendType::Location(_)) => DeliveryView {
                locations: if v.locations.len() > 0 {
                    v.locations.drop_first()
                } else {
                    v.locations
                },
                in_flight: None,
                ..v
            },
            Some(FmlNetSendType::TempHumi(_)) => DeliveryView {
                samples: if v.samples.len() > 0 {
                    v.samples.drop_first()
                } else {
                    v.samples
                },
                in_flight: None,
                ..v
            },
            None => v,
        }
    }
}

/// One step of the sender: a publish request is a dispatch attempt; an
/// acknowledgement is taken and followed at once by the next dispatch
/// attempt; any other message changes nothing.
pub open spec fn spec_send_step(v: DeliveryView, msg: Msg, logined: bool, now: u64) -> (
    DeliveryView,
    Option<FmlNetSendType>,
) {
    match msg {
        Msg::MqttPubReq => spec_dispatch(v, logined, now),
        Msg::MqttPubRpy(finish) => spec_dispatch(spec_acknowledge(v, finish), logined, now),
        _ => (v, None),
    }
}

/// Appending to a buffer of at most `FML_DATA_QUEUE_CAPACITY` items: a full buffer drops the new item.
pub open spec fn spec_append<T>(items: Seq<T>, item: T) -> Seq<T> {
    if items.len() < FML_DATA_QUEUE_CAPACITY {
        items.push(item)
    } else {
        items
    }
}

/// The delivery queue: positions and samples waiting to be published, and
/// the single slot for the item in flight.
pub struct DeliveryQueue {
    g_queue: FmlDataQueue,
    t_queue: FmlDataQueue,
    send_type: Option<FmlNetSendType>,
    send_time_out: u64,
}

impl View for DeliveryQueue {
    type V = DeliveryView;

    closed spec fn view(&self) -> DeliveryView {
        DeliveryView {
            locations: queue_items(self.g_queue).map_values(|r: Record| spec_location(r)),
            samples: queue_items(self.t_queue).map_values(|r: Record| spec_sample(r)),
            in_flight: self.send_type,
            sent_at: self.send_time_out,
        }
    }
}

impl DeliveryQueue {
    /// An empty delivery queue with nothing in flight.
    pub fn new() -> (r: DeliveryQueue)
        ensures
            r@.locations == Seq::<FmlGnssData>::empty(),
            r@.samples == Seq::<FmlTempHumiData>::empty(),
            r@.in_flight is None,
            r@.sent_at == 0,
    {
        let r = DeliveryQueue {
            g_queue: queue_new(),
            t_queue: queue_new(),
            send_type: None,
            send_time_out: 0,
        };
        proof {
            assert(r@.locations =~= Seq::<FmlGnssData>::empty());
            assert(r@.samples =~= Seq::<FmlTempHumiData>::empty());
        }
        r
    }

    /// Queues a position; a full buffer drops it. Returns whether it was queued.
    pub fn enqueue_location(&mut self, data: FmlGnssData) -> (queued: bool)
        ensures
            final(self)@ == (DeliveryView {
                locations: spec_append(old(self)@.locations, data),
                ..old(self)@
            }),
            queued == (old(self)@.locations.len() < FML_DATA_QUEUE_CAPACITY),
    {
        let r = queue_enqueue(&mut self.g_queue, (data.id, data.lat, data.lon));
        proof {
            assert(self@.locations =~= spec_append(old(self)@.locations, data));
        }
        r.is_ok()
    }

    /// Queues a sample; a full buffer drops it. Returns whether it was queued.
    pub fn enqueue_temp_humi(&mut self, data: FmlTempHumiData) -> (queued: bool)
        ensures
            final(self)@ == (DeliveryView {
                samples: spec_append(old(self)@.samples, data),
                ..old(self)@
            }),
            queued == (old(self)@.samples.len() < FML_DATA_QUEUE_CAPACITY),
    {
        let r = queue_enqueue(&mut self.t_queue, (data.id, data.temp, data.humi));
        proof {
            assert(self@.samples =~= spec_append(old(self)@.samples, data));
        }
        r.is_ok()
    }

    /// The number of positions and of samples that wait.
    pub fn len(&self) -> (r: (usize, usize))
        ensures
            r.0 == self@.locations.len(),
            r.1 == self@.samples.len(),
            r.0 <= FML_DATA_QUEUE_CAPACITY,
            r.1 <= FML_DATA_QUEUE_CAPACITY,
    {
        (queue_len(&self.g_queue), queue_len(&self.t_queue))
    }

    /// The item that is being published, if any.
    pub fn in_flight(&self) -> (r: Option<FmlNetSendType>)
        ensures
            r == self@.in_flight,
    {
        self.send_type
    }

    /// Attempts a dispatch at time `now`, in milliseconds. Returns the item to publish, if any.
    pub fn dispatch(&mut self, logined: bool, now: u64) -> (r: Option<FmlNetSendType>)
        ensures
            (final(self)@, r) == spec_dispatch(old(self)@, logined, now),
    {
        if !logined {
            return None;
        }
        if self.send_type.is_some() {
            if now > self.send_time_out && now - self.send_time_out > FML_NET_SEND_TIMEOUT_MS {
                self.send_type = None;
            } else {
                return None;
            }
        }
        let picked = match queue_peek(&self.g_queue) {
            Some(r) => Some(FmlNetSendType::Location(FmlGnssData { id: r.0, lat: r.1, lon: r.2 })),
            None => match queue_peek(&self.t_queue) {
                Some(r) => Some(
                    FmlNetSendType::TempHumi(FmlTempHumiData { id: r.0, temp: r.1, humi: r.2 }),
                ),
                None => None,
            },
        };
        if picked.is_some() {
            self.send_type = picked;
            self.send_time_out = now;
        }
        picked
    }

    /// Takes an acknowledgement: `finish` says whether the publish succeeded.
    pub fn acknowledge(&mut self, finish: bool)
        ensures
            final(self)@ == spec_acknowledge(old(self)@, finish),
    {
        if finish {
            match self.send_type {
                Some(FmlNetSendType::Location(_)) => {
                    let _ = queue_dequeue(&mut self.g_queue);
                    proof {
                        assert(self@.locations =~= spec_acknowledge(old(self)@, finish).locations);
                    }
                },
                Some(FmlNetSendType::TempHumi(_)) => {
                    let _ = queue_dequeue(&mut self.t_queue);
                    proof {
                        assert(self@.samples =~= spec_acknowledge(old(self)@, finish).samples);
                    }
                },
                None => {},
            }
        }
        self.send_type = None;
    }

    /// One step of the sender task. `logined` says whether the session is
    /// logged in, `now` is the time in milliseconds. Returns the item to publish, if any.
    pub fn fml_net_send_task(&mut self, msg: &Msg, logined: bool, now: u64) -> (r: Option<
        FmlNetSendType,
    >)
        ensures
            (final(self)@, r) == spec_send_step(old(self)@, *msg, logined, now),
    {
        match *msg {
            Msg::MqttPubReq => self.dispatch(logined, now),
            Msg::MqttPubRpy(finish) => {
                self.acknowledge(finish);
                self.dispatch(logined, now)
            },
            _ => None,
        }
    }
}

/// At most one item is in flight, and while it is, and has not timed out, a
/// dispatch attempt changes nothing and hands nothing out.
pub proof fn lemma_single_in_flight(v: DeliveryView, logined: bool, now: u64)
    requires
        v.in_flight is Some,
        !spec_timed_out(v, now),
    ensures
        spec_dispatch(v, logined, now) == (v, None::<FmlNetSendType>),
{
}

/// A failed publish, whether refused or timed out, leaves both buffers as
/// they were, so that the same item is picked again.
pub proof fn lemma_failure_keeps_items(v: DeliveryView)
    ensures
        spec_acknowledge(v, false).locations == v.locations,
        spec_acknowledge(v, false).samples == v.samples,
        spec_acknowledge(v, false).in_flight is None,
        spec_pick(spec_acknowledge(v, false)) == spec_pick(v),
{
}

/// A buffer never grows beyond its capacity.
pub proof fn lemma_append_is_bounded<T>(items: Seq<T>, item: T)
    requires
        items.len() <= FML_DATA_QUEUE_CAPACITY,
    ensures
        spec_append(items, item).len() <= FML_DATA_QUEUE_CAPACITY,
{
}

} // verus!
