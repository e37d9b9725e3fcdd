//! The transport/dispatch kernel: the pending-send queue, the broadcast
//! channel with per-subscriber lag, the per-type listener state, and the
//! registry that fans received frames out to listeners.
//!
//! The kernel is a state machine over plain data. The surrounding runtime
//! owns the physical channel and drives these transitions: on every cycle
//! it feeds a received frame (or a fault) in, drains the pending sends out,
//! and steps each listener's consume loop.

use vstd::prelude::*;

use crate::messages::{
    arbitration_valid, filter_matches, spec_arbitration_valid, CanMessageTrait, FrameModel,
    MessageFilter, RawCanMessage,
};

verus! {

/// Link speed of the physical channel, in bits per second.
pub const BAUDRATE: u32 = 1_000_000;

/// Default capacity of the pending-send queue.
pub const SEND_QUEUE_CAPACITY: usize = 32;

/// Default capacity of the broadcast channel.
pub const BROADCAST_CAPACITY: usize = 256;

/// Default capacity of each listener's decoded-message FIFO.
pub const LISTENER_QUEUE_CAPACITY: usize = 32;

/// Bound of each blocking read on the physical channel, in milliseconds.
pub const POLL_TIMEOUT_MS: u64 = 10;

/// The errors the transport surfaces.
#[derive(Debug, Clone, Copy, PartialEq, Eq, Structural)]
pub enum CanError {
    /// The pending-send queue was closed by a shutdown.
    ChannelClosed,
    /// The pending-send queue is at capacity.
    SendQueueFull,
    /// The outgoing arbitration id exceeds its family's encodable range.
    InvalidArbitrationId,
    /// A bus-level I/O fault, with the code the channel reported.
    BusFault(i32),
}

/// One entry of the pending-send queue: a frame to write, or the shutdown
/// sentinel that ends the dedicated I/O context.
#[derive(Debug)]
pub enum Command {
    Send(RawCanMessage),
    Shutdown,
}

/// The mathematical model of one pending command.
pub ghost enum CommandModel {
    Send(FrameModel),
    Shutdown,
}

impl View for Command {
    type V = CommandModel;

    open spec fn view(&self) -> CommandModel {
        match self {
            Command::Send(f) => CommandModel::Send(f@),
            Command::Shutdown => CommandModel::Shutdown,
        }
    }
}

// ---------------------------------------------------------------------------
// Broadcast channel with per-subscriber lag
// ---------------------------------------------------------------------------

/// A multi-consumer broadcast channel: a bounded window over a monotonic
/// publish counter. Subscribers hold plain cursors; one that falls behind
/// the window loses the oldest frames rather than blocking the publisher.
#[derive(Debug)]
pub struct BroadcastChannel {
    window: Vec<RawCanMessage>,
    published: u64,
    capacity: usize,
}

impl BroadcastChannel {
    pub closed spec fn spec_published(self) -> u64 {
        self.published
    }

    pub closed spec fn spec_capacity(self) -> usize {
        self.capacity
    }

    /// The retained frames, oldest first.
    pub closed spec fn frames(self) -> Seq<FrameModel> {
        self.window@.map_values(|m: RawCanMessage| m@)
    }

    /// The publish index of the oldest retained frame.
    pub open spec fn first_retained(self) -> int {
        self.spec_published() - self.frames().len()
    }

    pub closed spec fn wf(self) -> bool {
        self.capacity >= 1 && self.window@.len() == (if self.published < self.capacity {
            self.published as int
        } else {
            self.capacity as int
        })
    }

    pub fn new(capacity: usize) -> (r: Self)
        requires
            capacity >= 1,
        ensures
            r.wf(),
            r.spec_published() == 0,
            r.spec_capacity() == capacity,
            r.frames() == Seq::<FrameModel>::empty(),
    {
        let r = BroadcastChannel { window: Vec::new(), published: 0, capacity };
        proof {
            assert(r.frames() =~= Seq::<FrameModel>::empty());
        }
        r
    }

    /// Publishes one frame: the counter always advances, and the oldest
    /// retained frame is dropped once the window is full. Nothing here
    /// depends on any subscriber's state, so a slow or stalled consumer
    /// never blocks this path.
    pub fn publish(&mut self, frame: RawCanMessage)
        requires
            old(self).wf(),
            old(self).spec_published() < u64::MAX,
        ensures
            final(self).wf(),
            final(self).spec_capacity() == old(self).spec_capacity(),
            final(self).spec_published() == old(self).spec_published() + 1,
            final(self).frames() == (if old(self).frames().len() < old(self).spec_capacity() {
                old(self).frames().push(frame@)
            } else {
                old(self).frames().subrange(1, old(self).frames().len() as int).push(frame@)
            }),
    {
        if self.window.len() == self.capacity {
            self.window.remove(0);
            proof {
                assert(self.window@.map_values(|m: RawCanMessage| m@) =~= old(self).frames().subrange(1, old(self).frames().len() as int));
            }
        }
        let ghost mid = self.window@.map_values(|m: RawCanMessage| m@);
        self.window.push(frame);
        self.published = self.published + 1;
        proof {
            assert(self.window@.map_values(|m: RawCanMessage| m@) =~= mid.push(frame@));
        }
    }

    /// Opens a new subscription: a cursor at the current publish counter,
    /// so the subscriber sees exactly the frames published afterwards.
    pub fn subscribe(&self) -> (c: u64)
        ensures
            c == self.spec_published(),
    {
        self.published
    }

    /// Takes the next frame for the cursor. A cursor at the counter waits
    /// (`None`); one that has fallen behind the window is moved forward to
    /// the oldest retained frame, silently skipping what was lost.
    pub fn recv(&self, cursor: u64) -> (r: (Option<RawCanMessage>, u64))
        requires
            self.wf(),
            cursor <= self.spec_published(),
        ensures
            cursor == self.spec_published() ==> r == (None::<RawCanMessage>, cursor),
            cursor < self.spec_published() ==> {
                let start = if cursor < self.first_retained() {
                    self.first_retained()
                } else {
                    cursor as int
                };
                &&& r.1 == start + 1
                &&& r.0 matches Some(f) && f@ == self.frames()[start - self.first_retained()]
            },
    {
        if cursor >= self.published {
            (None, cursor)
        } else {
            let first: u64 = self.published - self.window.len() as u64;
            let start: u64 = if cursor < first {
                first
            } else {
                cursor
            };
            let idx: usize = (start - first) as usize;
            let f = self.window[idx].clone();
            (Some(f), start + 1)
        }
    }
}

// ---------------------------------------------------------------------------
// Bounded drop-oldest enqueueing and its delivery law
// ---------------------------------------------------------------------------

/// One bounded enqueue: a full queue drops its oldest entry.
pub open spec fn spec_enqueue_drop_oldest(
    q: Seq<FrameModel>,
    cap: int,
    f: FrameModel,
) -> Seq<FrameModel> {
    if q.len() < cap {
        q.push(f)
    } else {
        q.subrange(1, q.len() as int).push(f)
    }
}

/// The queue after enqueueing a whole sequence of frames, oldest first.
pub open spec fn spec_enqueue_all(q: Seq<FrameModel>, cap: int, fs: Seq<FrameModel>) -> Seq<
    FrameModel,
>
    decreases fs.len(),
{
    if fs.len() == 0 {
        q
    } else {
        spec_enqueue_all(spec_enqueue_drop_oldest(q, cap, fs[0]), cap, fs.drop_first())
    }
}

/// Bounded delivery: enqueueing any burst of frames into a bounded queue
/// while nothing consumes it retains the most recent frames only — the
/// queue ends as the tail of everything offered, never over capacity, and
/// a burst at least as long as the capacity leaves exactly the last
/// `cap` frames.
pub proof fn lemma_bounded_delivery(q: Seq<FrameModel>, cap: int, fs: Seq<FrameModel>)
    requires
        1 <= cap,
        q.len() <= cap,
    ensures
        ({
            let all = q + fs;
            let keep = if all.len() <= cap {
                all.len() as int
            } else {
                cap
            };
            spec_enqueue_all(q, cap, fs) == all.subrange(all.len() - keep, all.len() as int)
        }),
        fs.len() >= cap ==> spec_enqueue_all(q, cap, fs) == fs.subrange(
            fs.len() - cap,
            fs.len() as int,
        ),
        spec_enqueue_all(q, cap, fs).len() <= cap,
    decreases fs.len(),
{
    let all = q + fs;
    let keep = if all.len() <= cap {
        all.len() as int
    } else {
        cap
    };
    if fs.len() == 0 {
        assert(all =~= q);
        assert(all.subrange(all.len() - keep, all.len() as int) =~= q);
    } else {
        let q1 = spec_enqueue_drop_oldest(q, cap, fs[0]);
        let fs1 = fs.drop_first();
        lemma_bounded_delivery(q1, cap, fs1);
        let all1 = q1 + fs1;
        let keep1 = if all1.len() <= cap {
            all1.len() as int
        } else {
            cap
        };
        if q.len() < cap {
            assert(all1 =~= all);
        } else {
            assert(all1 =~= all.subrange(1, all.len() as int));
        }
        assert(all1.subrange(all1.len() - keep1, all1.len() as int) =~= all.subrange(
            all.len() - keep,
            all.len() as int,
        ));
        if fs.len() >= cap {
            assert(all.subrange(all.len() - keep, all.len() as int) =~= fs.subrange(
                fs.len() - cap,
                fs.len() as int,
            ));
        }
    }
}

// ---------------------------------------------------------------------------
// Listener state
// ---------------------------------------------------------------------------

/// What one step of a listener's consume loop did.
#[derive(Debug, Clone, Copy, PartialEq, Eq, Structural)]
pub enum ListenerStep {
    /// The stop flag was set: the loop exits cleanly.
    Stopped,
    /// The error slot was set: the loop exits surfacing the fault.
    Failed(CanError),
    /// No frame was available; the loop may suspend until one is.
    Idle,
    /// A frame was observed but did not match the classification.
    Ignored,
    /// A matching frame was enqueued for decoding.
    Delivered,
}

/// The per-registration listener state: a classification key, a bounded
/// FIFO of matched raw frames awaiting decode, an error slot set at most
/// once and read destructively, a monotonic stop flag, and the broadcast
/// cursor of its subscription.
#[derive(Debug)]
pub struct CanSimpleListener {
    filter: MessageFilter,
    queue: Vec<RawCanMessage>,
    capacity: usize,
    bus_error: Option<CanError>,
    is_stopped: bool,
    cursor: u64,
}

impl CanSimpleListener {
    pub closed spec fn spec_filter(self) -> MessageFilter {
        self.filter
    }

    /// The matched frames awaiting decode, oldest first.
    pub closed spec fn frames(self) -> Seq<FrameModel> {
        self.queue@.map_values(|m: RawCanMessage| m@)
    }

    pub closed spec fn spec_capacity(self) -> usize {
        self.capacity
    }

    pub closed spec fn spec_error(self) -> Option<CanError> {
        self.bus_error
    }

    pub closed spec fn spec_stopped(self) -> bool {
        self.is_stopped
    }

    pub closed spec fn spec_cursor(self) -> u64 {
        self.cursor
    }

    pub closed spec fn wf(self) -> bool {
        self.capacity >= 1 && self.queue@.len() <= self.capacity
    }

    /// Everything but the frame queue is unchanged.
    pub open spec fn same_but_queue(self, other: Self) -> bool {
        self.spec_filter() == other.spec_filter() && self.spec_capacity() == other.spec_capacity()
            && self.spec_error() == other.spec_error() && self.spec_stopped()
            == other.spec_stopped() && self.spec_cursor() == other.spec_cursor()
    }

    pub fn new(filter: MessageFilter, capacity: usize, cursor: u64) -> (r: Self)
        requires
            capacity >= 1,
        ensures
            r.wf(),
            r.spec_filter() == filter,
            r.spec_capacity() == capacity,
            r.frames() == Seq::<FrameModel>::empty(),
            r.spec_error() is None,
            !r.spec_stopped(),
            r.spec_cursor() == cursor,
    {
        let r = CanSimpleListener {
            filter,
            queue: Vec::new(),
            capacity,
            bus_error: None,
            is_stopped: false,
            cursor,
        };
        proof {
            assert(r.frames() =~= Seq::<FrameModel>::empty());
        }
        r
    }

    /// Pops the oldest matched frame and decodes it as `T` — the type
    /// whose classification this listener was registered under. Returns
    /// `None` on an empty queue; the caller suspends until a frame
    /// arrives.
    pub fn get_message<T: CanMessageTrait>(&mut self) -> (r: Option<T>)
        requires
            old(self).wf(),
        ensures
            final(self).wf(),
            final(self).same_but_queue(*old(self)),
            old(self).frames().len() == 0 ==> r is None && final(self).frames() == old(self).frames(),
            old(self).frames().len() > 0 ==> {
                &&& final(self).frames() == old(self).frames().drop_first()
                &&& r matches Some(m) && m.spec_decoded(old(self).frames()[0])
            },
    {
        if self.queue.len() == 0 {
            None
        } else {
            let raw = self.queue.remove(0);
            proof {
                assert(self.queue@.map_values(|m: RawCanMessage| m@) =~= old(self).frames().drop_first());
            }
            Some(T::from_can_message(raw))
        }
    }

    /// Takes the bus fault out of the error slot, leaving it empty.
    pub fn take_error(&mut self) -> (r: Option<CanError>)
        ensures
            r == old(self).spec_error(),
            final(self).spec_error() is None,
            final(self).spec_filter() == old(self).spec_filter(),
            final(self).spec_capacity() == old(self).spec_capacity(),
            final(self).spec_stopped() == old(self).spec_stopped(),
            final(self).spec_cursor() == old(self).spec_cursor(),
            final(self).frames() == old(self).frames(),
            old(self).wf() ==> final(self).wf(),
    {
        let r = self.bus_error;
        self.bus_error = None;
        r
    }

    /// One step of the consume loop: exit on the stop flag, surface a
    /// pending fault, otherwise take the next broadcast frame, classify
    /// it, and enqueue it if it matches.
    pub fn consume_step(&mut self, ch: &BroadcastChannel) -> (r: ListenerStep)
        requires
            old(self).wf(),
            ch.wf(),
            old(self).spec_cursor() <= ch.spec_published(),
        ensures
            final(self).wf(),
            final(self).spec_filter() == old(self).spec_filter(),
            final(self).spec_capacity() == old(self).spec_capacity(),
            final(self).spec_stopped() == old(self).spec_stopped(),
            final(self).spec_cursor() <= ch.spec_published(),
            old(self).spec_error() matches Some(e) ==> r == ListenerStep::Failed(e) && final(self).spec_error() is None && final(self).frames() == old(self).frames() && final(self).spec_cursor() == old(self).spec_cursor(),
            old(self).spec_error() is None && old(self).spec_stopped() ==> r
                == ListenerStep::Stopped && *final(self) == *old(self),
            old(self).spec_error() is None && !old(self).spec_stopped() ==> {
                &&& final(self).spec_error() is None
                &&& (old(self).spec_cursor() == ch.spec_published() ==> r == ListenerStep::Idle
                    && *final(self) == *old(self))
                &&& (old(self).spec_cursor() < ch.spec_published() ==> {
                    let start = if old(self).spec_cursor() < ch.first_retained() {
                        ch.first_retained()
                    } else {
                        old(self).spec_cursor() as int
                    };
                    let f = ch.frames()[start - ch.first_retained()];
                    &&& final(self).spec_cursor() == start + 1
                    &&& (filter_matches(old(self).spec_filter(), f) ==> r
                        == ListenerStep::Delivered && final(self).frames()
                        == spec_enqueue_drop_oldest(
                        old(self).frames(),
                        old(self).spec_capacity() as int,
                        f,
                    ))
                    &&& (!filter_matches(old(self).spec_filter(), f) ==> r
                        == ListenerStep::Ignored && final(self).frames() == old(self).frames())
                })
            },
    {
        if self.bus_error.is_some() {
            let e = self.take_error();
            return ListenerStep::Failed(e.unwrap());
        }
        if self.is_stopped {
            return ListenerStep::Stopped;
        }
        let (got, next_cursor) = ch.recv(self.cursor);
        match got {
            None => ListenerStep::Idle,
            Some(frame) => {
                self.cursor = next_cursor;
                self.on_message_received(&frame);
                if self.filter.accepts(&frame) {
                    ListenerStep::Delivered
                } else {
                    ListenerStep::Ignored
                }
            },
        }
    }
}

/// The untyped face of a registered listener, as the dispatch loop drives
/// it: receive a classified frame, record a fault, request a stop.
pub trait DynamicCanListener {
    fn on_message_received(&mut self, msg: &RawCanMessage);

    fn on_error(&mut self, exc: CanError);

    fn stop(&mut self);
}

impl DynamicCanListener for CanSimpleListener {
    /// Classifies one frame and, if it matches, enqueues it, dropping the
    /// oldest queued frame when the FIFO is at capacity.
    fn on_message_received(&mut self, msg: &RawCanMessage)
        ensures
            old(self).wf() ==> final(self).wf(),
            final(self).same_but_queue(*old(self)),
            filter_matches(old(self).spec_filter(), msg@) && old(self).wf() ==> final(self).frames() == spec_enqueue_drop_oldest(
                old(self).frames(),
                old(self).spec_capacity() as int,
                msg@,
            ),
            !filter_matches(old(self).spec_filter(), msg@) ==> final(self).frames() == old(self).frames(),
    {
        if self.filter.accepts(msg) {
            if self.queue.len() >= self.capacity && self.queue.len() > 0 {
                self.queue.remove(0);
                proof {
                    assert(self.queue@.map_values(|m: RawCanMessage| m@) =~= old(self).frames().subrange(1, old(self).frames().len() as int));
                }
            }
            let ghost mid = self.queue@.map_values(|m: RawCanMessage| m@);
            self.queue.push(msg.clone());
            proof {
                assert(self.queue@.map_values(|m: RawCanMessage| m@) =~= mid.push(msg@));
            }
        }
    }

    /// Records a bus fault; the slot is set at most once, so a fault that
    /// arrives after another is dropped.
    fn on_error(&mut self, exc: CanError)
        ensures
            final(self).spec_error() == (if old(self).spec_error() is None {
                Some(exc)
            } else {
                old(self).spec_error()
            }),
            final(self).spec_filter() == old(self).spec_filter(),
            final(self).spec_capacity() == old(self).spec_capacity(),
            final(self).spec_stopped() == old(self).spec_stopped(),
            final(self).spec_cursor() == old(self).spec_cursor(),
            final(self).frames() == old(self).frames(),
            old(self).wf() ==> final(self).wf(),
    {
        if self.bus_error.is_none() {
            self.bus_error = Some(exc);
        }
    }

    /// Sets the stop flag; idempotent, observed at the top of the next
    /// consume-loop iteration.
    fn stop(&mut self)
        ensures
            final(self).spec_stopped(),
            final(self).spec_filter() == old(self).spec_filter(),
            final(self).spec_capacity() == old(self).spec_capacity(),
            final(self).spec_error() == old(self).spec_error(),
            final(self).spec_cursor() == old(self).spec_cursor(),
            final(self).frames() == old(self).frames(),
            old(self).wf() ==> final(self).wf(),
    {
        self.is_stopped = true;
    }
}

// ---------------------------------------------------------------------------
// The transport
// ---------------------------------------------------------------------------

/// The transport state: the bounded pending-send queue with its closed
/// flag, the broadcast channel, and the registry of active listeners.
///
/// The dedicated I/O context drives it from outside: it feeds received
/// frames through `handle_frame_received`, reports faults through
/// `handle_io_error`, and drains `drain_pending` after each read cycle;
/// listener tasks call `dispatch_step`.
#[derive(Debug)]
pub struct CanSimple {
    pending: Vec<Command>,
    pending_capacity: usize,
    closed: bool,
    broadcast: BroadcastChannel,
    listeners: Vec<CanSimpleListener>,
}

impl CanSimple {
    /// The queued commands, oldest first.
    pub closed spec fn pending_commands(self) -> Seq<CommandModel> {
        self.pending@.map_values(|c: Command| c@)
    }

    pub closed spec fn spec_pending_capacity(self) -> usize {
        self.pending_capacity
    }

    pub closed spec fn spec_closed(self) -> bool {
        self.closed
    }

    pub closed spec fn spec_broadcast(self) -> BroadcastChannel {
        self.broadcast
    }

    pub closed spec fn spec_listeners(self) -> Seq<CanSimpleListener> {
        self.listeners@
    }

    pub closed spec fn wf(self) -> bool {
        &&& self.pending_capacity >= 1
        &&& self.broadcast.wf()
        &&& forall|i: int|
            0 <= i < self.listeners@.len() ==> (#[trigger] self.listeners@[i]).wf()
                && self.listeners@[i].spec_cursor() <= self.broadcast.spec_published()
    }

    /// A fresh transport: nothing pending, nothing published, no
    /// listeners, open for sending.
    pub fn new(pending_capacity: usize, broadcast_capacity: usize) -> (r: Self)
        requires
            pending_capacity >= 1,
            broadcast_capacity >= 1,
        ensures
            r.wf(),
            r.pending_commands() == Seq::<CommandModel>::empty(),
            r.spec_pending_capacity() == pending_capacity,
            !r.spec_closed(),
            r.spec_broadcast().spec_published() == 0,
            r.spec_broadcast().spec_capacity() == broadcast_capacity,
            r.spec_listeners().len() == 0,
    {
        let r = CanSimple {
            pending: Vec::new(),
            pending_capacity,
            closed: false,
            broadcast: BroadcastChannel::new(broadcast_capacity),
            listeners: Vec::new(),
        };
        proof {
            assert(r.pending_commands() =~= Seq::<CommandModel>::empty());
        }
        r
    }

    /// Registers a listener for the message type `T`: its classification
    /// key reifies `T`'s `matches`, and its subscription starts at the
    /// current publish counter, so it observes exactly the frames
    /// published after registration.
    pub fn register<T: CanMessageTrait>(&mut self, fifo_capacity: usize) -> (h: usize)
        requires
            old(self).wf(),
            fifo_capacity >= 1,
        ensures
            final(self).wf(),
            h == old(self).spec_listeners().len(),
            final(self).spec_listeners().len() == old(self).spec_listeners().len() + 1,
            forall|i: int|
                0 <= i < old(self).spec_listeners().len() ==> final(self).spec_listeners()[i]
                    == old(self).spec_listeners()[i],
            ({
                let l = final(self).spec_listeners()[h as int];
                &&& forall|m: FrameModel| filter_matches(l.spec_filter(), m) == T::spec_matches(m)
                &&& l.frames() == Seq::<FrameModel>::empty()
                &&& l.spec_error() is None
                &&& !l.spec_stopped()
                &&& l.spec_capacity() == fifo_capacity
                &&& l.spec_cursor() == old(self).spec_broadcast().spec_published()
            }),
            final(self).pending_commands() == old(self).pending_commands(),
            final(self).spec_closed() == old(self).spec_closed(),
            final(self).spec_broadcast() == old(self).spec_broadcast(),
    {
        let filter = T::message_filter();
        let cursor = self.broadcast.subscribe();
        let h = self.listeners.len();
        self.listeners.push(CanSimpleListener::new(filter, fifo_capacity, cursor));
        h
    }

    /// Encodes a message and places it on the pending-send queue. Fails
    /// exactly when the transport was shut down, the arbitration id
    /// exceeds its family's encodable range (the structured id's family
    /// window, or the frame-level 11-bit/29-bit bound), or the queue is
    /// at capacity.
    pub fn send<T: CanMessageTrait>(&mut self, msg: &T) -> (r: Result<(), CanError>)
        requires
            old(self).wf(),
        ensures
            final(self).wf(),
            final(self).spec_pending_capacity() == old(self).spec_pending_capacity(),
            final(self).spec_closed() == old(self).spec_closed(),
            final(self).spec_broadcast() == old(self).spec_broadcast(),
            final(self).spec_listeners() == old(self).spec_listeners(),
            ({
                let f = msg.spec_frame();
                let invalid = !spec_arbitration_valid(msg.spec_arbitration()) || (
                if f.is_extended_id {
                    f.arbitration_id >= 0x2000_0000
                } else {
                    f.arbitration_id >= 0x800
                });
                if old(self).spec_closed() {
                    r == Err::<(), CanError>(CanError::ChannelClosed) && final(self).pending_commands() == old(self).pending_commands()
                } else if invalid {
                    r == Err::<(), CanError>(CanError::InvalidArbitrationId) && final(self).pending_commands() == old(self).pending_commands()
                } else if old(self).pending_commands().len()
                    >= old(self).spec_pending_capacity() {
                    r == Err::<(), CanError>(CanError::SendQueueFull) && final(self).pending_commands() == old(self).pending_commands()
                } else {
                    r == Ok::<(), CanError>(()) && final(self).pending_commands() == old(self).pending_commands().push(CommandModel::Send(f))
                }
            }),
    {
        if self.closed {
            return Err(CanError::ChannelClosed);
        }
        let arb = msg.gen_arbitration_id();
        if !arbitration_valid(&arb) {
            return Err(CanError::InvalidArbitrationId);
        }
        let raw = msg.as_can_message();
        if raw.is_extended_id {
            if raw.arbitration_id >= 0x2000_0000 {
                return Err(CanError::InvalidArbitrationId);
            }
        } else {
            if raw.arbitration_id >= 0x800 {
                return Err(CanError::InvalidArbitrationId);
            }
        }
        if self.pending.len() >= self.pending_capacity {
            return Err(CanError::SendQueueFull);
        }
        let ghost before = self.pending@.map_values(|c: Command| c@);
        self.pending.push(Command::Send(raw));
        proof {
            assert(self.pending@.map_values(|c: Command| c@) =~= before.push(
                CommandModel::Send(msg.spec_frame()),
            ));
        }
        Ok(())
    }

    /// Publishes one received frame to the broadcast channel. The publish
    /// counter always advances, whatever the listeners' queues or cursors
    /// hold: consumer lag never propagates back to the read path.
    pub fn handle_frame_received(&mut self, frame: RawCanMessage)
        requires
            old(self).wf(),
            old(self).spec_broadcast().spec_published() < u64::MAX,
        ensures
            final(self).wf(),
            final(self).spec_broadcast().spec_published() == old(self).spec_broadcast().spec_published() + 1,
            final(self).spec_broadcast().spec_capacity() == old(self).spec_broadcast().spec_capacity(),
            final(self).spec_broadcast().frames() == (if old(self).spec_broadcast().frames().len()
                < old(self).spec_broadcast().spec_capacity() {
                old(self).spec_broadcast().frames().push(frame@)
            } else {
                old(self).spec_broadcast().frames().subrange(
                    1,
                    old(self).spec_broadcast().frames().len() as int,
                ).push(frame@)
            }),
            final(self).spec_listeners() == old(self).spec_listeners(),
            final(self).pending_commands() == old(self).pending_commands(),
            final(self).spec_closed() == old(self).spec_closed(),
            final(self).spec_pending_capacity() == old(self).spec_pending_capacity(),
    {
        self.broadcast.publish(frame);
    }

    /// Reports a bus-level fault to every registered listener's error
    /// slot. After this, every listener's next consume step surfaces the
    /// fault.
    pub fn handle_io_error(&mut self, code: i32)
        requires
            old(self).wf(),
        ensures
            final(self).wf(),
            final(self).spec_listeners().len() == old(self).spec_listeners().len(),
            forall|i: int|
                0 <= i < old(self).spec_listeners().len() ==> (#[trigger] final(self).spec_listeners()[i]).spec_error() == (if old(self).spec_listeners()[i].spec_error() is None {
                    Some(CanError::BusFault(code))
                } else {
                    old(self).spec_listeners()[i].spec_error()
                }),
            forall|i: int|
                0 <= i < old(self).spec_listeners().len() ==> (#[trigger] final(self).spec_listeners()[i]).spec_error() is Some,
            forall|i: int|
                0 <= i < old(self).spec_listeners().len() ==> {
                    let l0 = old(self).spec_listeners()[i];
                    let l1 = #[trigger] final(self).spec_listeners()[i];
                    l1.frames() == l0.frames() && l1.spec_filter() == l0.spec_filter()
                        && l1.spec_stopped() == l0.spec_stopped() && l1.spec_cursor()
                        == l0.spec_cursor() && l1.spec_capacity() == l0.spec_capacity()
                },
            final(self).pending_commands() == old(self).pending_commands(),
            final(self).spec_closed() == old(self).spec_closed(),
            final(self).spec_broadcast() == old(self).spec_broadcast(),
            final(self).spec_pending_capacity() == old(self).spec_pending_capacity(),
    {
        let mut k: usize = 0;
        while k < self.listeners.len()
            invariant
                old(self).wf(),
                k <= self.listeners@.len(),
                self.listeners@.len() == old(self).spec_listeners().len(),
                self.pending@ == old(self).pending@,
                self.pending_capacity == old(self).spec_pending_capacity(),
                self.closed == old(self).spec_closed(),
                self.broadcast == old(self).spec_broadcast(),
                forall|i: int|
                    k <= i < self.listeners@.len() ==> #[trigger] self.listeners@[i] == old(self).spec_listeners()[i],
                forall|i: int|
                    0 <= i < k ==> (#[trigger] self.listeners@[i]).spec_error() == (if old(self).spec_listeners()[i].spec_error() is None {
                        Some(CanError::BusFault(code))
                    } else {
                        old(self).spec_listeners()[i].spec_error()
                    }),
                forall|i: int|
                    0 <= i < k ==> {
                        let l0 = old(self).spec_listeners()[i];
                        let l1 = #[trigger] self.listeners@[i];
                        l1.frames() == l0.frames() && l1.spec_filter() == l0.spec_filter()
                            && l1.spec_stopped() == l0.spec_stopped() && l1.spec_cursor()
                            == l0.spec_cursor() && l1.spec_capacity() == l0.spec_capacity()
                            && l1.wf()
                    },
            decreases self.listeners@.len() - k,
        {
            let l = &mut self.listeners[k];
            l.on_error(CanError::BusFault(code));
            k = k + 1;
        }
        proof {
            assert(self.pending@.map_values(|c: Command| c@) =~= old(self).pending_commands());
        }
    }

    /// Runs one consume-loop step of the listener at `h` against the
    /// broadcast channel.
    pub fn dispatch_step(&mut self, h: usize) -> (r: ListenerStep)
        requires
            old(self).wf(),
            h < old(self).spec_listeners().len(),
        ensures
            final(self).wf(),
            final(self).spec_listeners().len() == old(self).spec_listeners().len(),
            forall|i: int|
                0 <= i < old(self).spec_listeners().len() && i != h ==> final(self).spec_listeners()[i] == old(self).spec_listeners()[i],
            ({
                let l0 = old(self).spec_listeners()[h as int];
                let l1 = final(self).spec_listeners()[h as int];
                let ch = old(self).spec_broadcast();
                &&& (l0.spec_error() matches Some(e) ==> r == ListenerStep::Failed(e)
                    && l1.spec_error() is None && l1.frames() == l0.frames())
                &&& (l0.spec_error() is None && l0.spec_stopped() ==> r == ListenerStep::Stopped
                    && l1 == l0)
                &&& (l0.spec_error() is None && !l0.spec_stopped() && l0.spec_cursor()
                    == ch.spec_published() ==> r == ListenerStep::Idle && l1 == l0)
                &&& (l0.spec_error() is None && !l0.spec_stopped() && l0.spec_cursor()
                    < ch.spec_published() ==> {
                    let start = if l0.spec_cursor() < ch.first_retained() {
                        ch.first_retained()
                    } else {
                        l0.spec_cursor() as int
                    };
                    let f = ch.frames()[start - ch.first_retained()];
                    &&& l1.spec_cursor() == start + 1
                    &&& (filter_matches(l0.spec_filter(), f) ==> r == ListenerStep::Delivered
                        && l1.frames() == spec_enqueue_drop_oldest(
                        l0.frames(),
                        l0.spec_capacity() as int,
                        f,
                    ))
                    &&& (!filter_matches(l0.spec_filter(), f) ==> r == ListenerStep::Ignored
                        && l1.frames() == l0.frames())
                })
            }),
            final(self).pending_commands() == old(self).pending_commands(),
            final(self).spec_closed() == old(self).spec_closed(),
            final(self).spec_broadcast() == old(self).spec_broadcast(),
            final(self).spec_pending_capacity() == old(self).spec_pending_capacity(),
    {
        let l = &mut self.listeners[h];
        let r = l.consume_step(&self.broadcast);
        proof {
            assert(self.pending@.map_values(|c: Command| c@) =~= old(self).pending_commands());
        }
        r
    }

    /// Pops the oldest decoded message of the listener at `h` as `T`.
    pub fn get_message<T: CanMessageTrait>(&mut self, h: usize) -> (r: Option<T>)
        requires
            old(self).wf(),
            h < old(self).spec_listeners().len(),
        ensures
            final(self).wf(),
            final(self).spec_listeners().len() == old(self).spec_listeners().len(),
            forall|i: int|
                0 <= i < old(self).spec_listeners().len() && i != h ==> final(self).spec_listeners()[i] == old(self).spec_listeners()[i],
            ({
                let l0 = old(self).spec_listeners()[h as int];
                let l1 = final(self).spec_listeners()[h as int];
                &&& l1.same_but_queue(l0)
                &&& (l0.frames().len() == 0 ==> r is None && l1.frames() == l0.frames())
                &&& (l0.frames().len() > 0 ==> l1.frames() == l0.frames().drop_first() && (
                r matches Some(m) && m.spec_decoded(l0.frames()[0])))
            }),
            final(self).pending_commands() == old(self).pending_commands(),
            final(self).spec_closed() == old(self).spec_closed(),
            final(self).spec_broadcast() == old(self).spec_broadcast(),
            final(self).spec_pending_capacity() == old(self).spec_pending_capacity(),
    {
        let l = &mut self.listeners[h];
        let r = l.get_message::<T>();
        proof {
            assert(self.pending@.map_values(|c: Command| c@) =~= old(self).pending_commands());
        }
        r
    }

    /// Shuts the transport down: every listener is stopped, the send queue
    /// is closed against further sends, and the shutdown sentinel is
    /// queued so the dedicated I/O context observes it after its current
    /// read/drain cycle.
    pub fn shutdown(&mut self)
        requires
            old(self).wf(),
        ensures
            final(self).wf(),
            final(self).spec_closed(),
            final(self).spec_listeners().len() == old(self).spec_listeners().len(),
            forall|i: int|
                0 <= i < old(self).spec_listeners().len() ==> (#[trigger] final(self).spec_listeners()[i]).spec_stopped(),
            final(self).pending_commands() == old(self).pending_commands().push(
                CommandModel::Shutdown,
            ),
            final(self).spec_broadcast() == old(self).spec_broadcast(),
            final(self).spec_pending_capacity() == old(self).spec_pending_capacity(),
    {
        let mut k: usize = 0;
        while k < self.listeners.len()
            invariant
                old(self).wf(),
                k <= self.listeners@.len(),
                self.listeners@.len() == old(self).spec_listeners().len(),
                self.pending@ == old(self).pending@,
                self.pending_capacity == old(self).spec_pending_capacity(),
                self.closed == old(self).spec_closed(),
                self.broadcast == old(self).spec_broadcast(),
                forall|i: int|
                    k <= i < self.listeners@.len() ==> #[trigger] self.listeners@[i] == old(self).spec_listeners()[i],
                forall|i: int|
                    0 <= i < k ==> (#[trigger] self.listeners@[i]).spec_stopped()
                        && self.listeners@[i].wf() && self.listeners@[i].spec_cursor()
                        <= self.broadcast.spec_published(),
            decreases self.listeners@.len() - k,
        {
            let l = &mut self.listeners[k];
            l.stop();
            k = k + 1;
        }
        self.closed = true;
        let ghost before = self.pending@.map_values(|c: Command| c@);
        self.pending.push(Command::Shutdown);
        proof {
            assert(self.pending@.map_values(|c: Command| c@) =~= before.push(
                CommandModel::Shutdown,
            ));
            assert(before =~= old(self).pending_commands());
        }
    }

    /// How many frames the I/O context has published so far.
    pub fn published_count(&self) -> (r: u64)
        ensures
            r == self.spec_broadcast().spec_published(),
    {
        self.broadcast.subscribe()
    }

    /// Whether the pending-send queue was closed by a shutdown.
    pub fn is_closed(&self) -> (r: bool)
        ensures
            r == self.spec_closed(),
    {
        self.closed
    }

    /// How many listeners are registered.
    pub fn listener_count(&self) -> (r: usize)
        ensures
            r == self.spec_listeners().len(),
    {
        self.listeners.len()
    }

    /// Hands every queued command to the I/O context, in FIFO order,
    /// leaving the queue empty.
    pub fn drain_pending(&mut self) -> (r: Vec<Command>)
        requires
            old(self).wf(),
        ensures
            final(self).wf(),
            r@.map_values(|c: Command| c@) == old(self).pending_commands(),
            final(self).pending_commands() == Seq::<CommandModel>::empty(),
            final(self).spec_closed() == old(self).spec_closed(),
            final(self).spec_broadcast() == old(self).spec_broadcast(),
            final(self).spec_listeners() == old(self).spec_listeners(),
            final(self).spec_pending_capacity() == old(self).spec_pending_capacity(),
    {
        let mut out: Vec<Command> = Vec::new();
        core::mem::swap(&mut out, &mut self.pending);
        proof {
            assert(self.pending@.map_values(|c: Command| c@) =~= Seq::<CommandModel>::empty());
        }
        out
    }
}

} // verus!
