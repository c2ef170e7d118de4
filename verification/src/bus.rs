//! The message bus: a bounded broadcast channel with one cursor per
//! subscriber.
//!
//! The bus is described by an unbounded log of every message it accepted and,
//! for each subscriber, the position in that log of the next message to hand
//! out. Only the newest `capacity` messages of the log are retained; a
//! subscriber whose cursor points at a message that is no longer retained has
//! lagged, and skips ahead to the oldest retained message.

use vstd::prelude::*;
use std::collections::VecDeque;
use vstd::std_specs::vecdeque::VecDequeAdditionalSpecFns;
use crate::message::{Message, MessageView};

verus! {

/// What one attempt to receive yields, as a mathematical value.
pub enum ReceivedView {
    /// The next message for this subscriber.
    Message(MessageView),
    /// Nothing is pending yet; more may come.
    Empty,
    /// The subscriber fell behind; the gap was skipped and nothing is handed
    /// out by this attempt.
    Lagged,
    /// Nothing is pending and nothing will ever come.
    Closed,
}

/// The mathematical state of a [`Bus`].
pub struct BusView {
    /// How many of the newest messages are retained.
    pub capacity: nat,
    /// Every message accepted so far, oldest first.
    pub log: Seq<MessageView>,
    /// For each subscriber, the position in `log` of its next message.
    pub cursors: Map<nat, nat>,
    /// Whether the bus has been closed for good.
    pub closed: bool,
}

impl BusView {
    /// The state of a fresh bus: nothing accepted, nobody subscribed, open.
    pub open spec fn new(capacity: nat) -> BusView {
        BusView { capacity, log: Seq::empty(), cursors: Map::empty(), closed: false }
    }

    /// No cursor points beyond the end of the log.
    pub open spec fn wf(self) -> bool {
        forall|id: nat| self.cursors.contains_key(id) ==> #[trigger] self.cursors[id] <= self.log.len()
    }

    /// Whether `id` names a current subscriber.
    pub open spec fn subscribed(self, id: nat) -> bool {
        self.cursors.contains_key(id)
    }

    /// Whether anybody is subscribed.
    pub open spec fn has_subscribers(self) -> bool {
        exists|id: nat| self.cursors.contains_key(id)
    }

    /// The position of the oldest message that is still retained.
    pub open spec fn oldest(self) -> nat {
        if self.log.len() > self.capacity {
            (self.log.len() - self.capacity) as nat
        } else {
            0
        }
    }

    /// The messages that are still retained, oldest first.
    pub open spec fn retained(self) -> Seq<MessageView> {
        self.log.subrange(self.oldest() as int, self.log.len() as int)
    }

    /// Publishing appends the message to the log, unless the bus is closed or
    /// nobody is subscribed: then the message is discarded.
    pub open spec fn publish(self, message: MessageView) -> BusView {
        if self.closed || !self.has_subscribers() {
            self
        } else {
            BusView { log: self.log.push(message), ..self }
        }
    }

    /// Publishing several messages, one after the other.
    pub open spec fn publish_all(self, messages: Seq<MessageView>) -> BusView
        decreases messages.len(),
    {
        if messages.len() == 0 {
            self
        } else {
            self.publish_all(messages.drop_last()).publish(messages.last())
        }
    }

    /// The handle that the next subscriber gets: the least one not in use.
    pub open spec fn is_next_id(self, id: nat) -> bool {
        &&& !self.cursors.contains_key(id)
        &&& forall|other: nat| other < id ==> self.cursors.contains_key(other)
    }

    /// A new subscriber starts at the end of the log: it sees only what is
    /// published after it subscribed.
    pub open spec fn subscribe(self, id: nat) -> BusView {
        BusView { cursors: self.cursors.insert(id, self.log.len()), ..self }
    }

    /// Unsubscribing forgets the cursor and nothing else.
    pub open spec fn unsubscribe(self, id: nat) -> BusView {
        BusView { cursors: self.cursors.remove(id), ..self }
    }

    /// Closing keeps what is pending and refuses everything new.
    pub open spec fn close(self) -> BusView {
        BusView { closed: true, ..self }
    }

    /// Whether `id` is subscribed and has been handed everything published
    /// so far.
    pub open spec fn caught_up(self, id: nat) -> bool {
        self.cursors.contains_key(id) && self.cursors[id] == self.log.len()
    }

    /// Whether the next message of subscriber `id` is no longer retained.
    pub open spec fn lagging(self, id: nat) -> bool {
        self.cursors[id] < self.oldest()
    }

    /// The position from which subscriber `id` will actually be served: its
    /// cursor, or the oldest retained message if it has lagged.
    pub open spec fn start(self, id: nat) -> nat {
        if self.lagging(id) {
            self.oldest()
        } else {
            self.cursors[id]
        }
    }

    /// The messages that subscriber `id` has yet to receive, in the order in
    /// which it will receive them.
    pub open spec fn pending(self, id: nat) -> Seq<MessageView> {
        self.log.subrange(self.start(id) as int, self.log.len() as int)
    }

    /// What subscriber `id` gets when it tries to receive now. A handle that
    /// is not subscribed names a stream that has ended.
    pub open spec fn outcome(self, id: nat) -> ReceivedView {
        if !self.cursors.contains_key(id) {
            ReceivedView::Closed
        } else if self.lagging(id) {
            ReceivedView::Lagged
        } else if self.cursors[id] < self.log.len() {
            ReceivedView::Message(self.log[self.cursors[id] as int])
        } else if self.closed {
            ReceivedView::Closed
        } else {
            ReceivedView::Empty
        }
    }

    /// How many attempts subscriber `id` needs to receive all that is
    /// pending: one for each message, and one more to skip a gap.
    pub open spec fn attempts_needed(self, id: nat) -> nat {
        if self.lagging(id) {
            self.pending(id).len() + 1
        } else {
            self.pending(id).len()
        }
    }

    /// The messages that subscriber `id` is handed in its next `attempts`
    /// attempts to receive, while nothing else happens to the bus.
    pub open spec fn deliveries(self, id: nat, attempts: nat) -> Seq<MessageView>
        decreases attempts,
    {
        if attempts == 0 {
            Seq::empty()
        } else {
            let later = self.after_receive(id).deliveries(id, (attempts - 1) as nat);
            match self.outcome(id) {
                ReceivedView::Message(message) => seq![message] + later,
                _ => later,
            }
        }
    }

    /// The state after subscriber `id` tried to receive: a lagging cursor
    /// jumps to the oldest retained message, a delivered message moves the
    /// cursor by one, and otherwise nothing changes.
    pub open spec fn after_receive(self, id: nat) -> BusView {
        if !self.cursors.contains_key(id) {
            self
        } else if self.lagging(id) {
            BusView { cursors: self.cursors.insert(id, self.oldest()), ..self }
        } else if self.cursors[id] < self.log.len() {
            BusView { cursors: self.cursors.insert(id, self.cursors[id] + 1), ..self }
        } else {
            self
        }
    }
}

/// What one attempt to receive yields.
#[derive(Debug, PartialEq, Eq)]
pub enum Received {
    /// The next message for this subscriber.
    Message(Message),
    /// Nothing is pending yet; more may come.
    Empty,
    /// The subscriber fell behind; the gap was skipped and nothing is handed
    /// out by this attempt.
    Lagged,
    /// Nothing is pending and nothing will ever come.
    Closed,
}

impl View for Received {
    type V = ReceivedView;

    open spec fn view(&self) -> ReceivedView {
        match self {
            Received::Message(m) => ReceivedView::Message(m@),
            Received::Empty => ReceivedView::Empty,
            Received::Lagged => ReceivedView::Lagged,
            Received::Closed => ReceivedView::Closed,
        }
    }
}

/// The error of subscribing to a bus that has been closed.
#[derive(Debug, Clone, Copy, PartialEq, Eq, Structural)]
pub struct BusClosed;

/// The place of one subscriber, relative to the end of the log.
struct Cursor {
    /// Whether the handle is in use.
    active: bool,
    /// How many retained messages are still to be handed out.
    unread: usize,
    /// Whether messages this subscriber had not read were dropped.
    lagged: bool,
    /// The position in the log of the next message.
    position: Ghost<nat>,
}

impl Cursor {
    /// The cursor after one more message was accepted by a bus that retains
    /// `capacity` messages: one more is unread, unless that one pushed the
    /// oldest unread message out.
    spec fn advanced(self, capacity: usize) -> Cursor {
        if !self.active || self.lagged {
            self
        } else if self.unread < capacity {
            Cursor { unread: (self.unread + 1) as usize, ..self }
        } else {
            Cursor { lagged: true, ..self }
        }
    }

    fn advance(&self, capacity: usize) -> (next: Cursor)
        ensures
            next == self.advanced(capacity),
    {
        if !self.active || self.lagged {
            Cursor { active: self.active, unread: self.unread, lagged: self.lagged, position: self.position }
        } else if self.unread < capacity {
            Cursor { active: true, unread: self.unread + 1, lagged: false, position: self.position }
        } else {
            Cursor { active: true, unread: self.unread, lagged: true, position: self.position }
        }
    }
}

/// A bounded broadcast channel. Every subscriber receives, in the order of
/// publication, each message published after it subscribed, as long as it
/// does not fall behind by more than the capacity.
pub struct Bus {
    capacity: usize,
    retained: VecDeque<Message>,
    receivers: Vec<Cursor>,
    closed: bool,
    log: Ghost<Seq<MessageView>>,
}

impl View for Bus {
    type V = BusView;

    /// The cursors are read off the subscribers in use. Each is cut off at
    /// the end of the log, which makes the state well formed by its form
    /// alone; the invariant of the bus keeps every cursor within the log, so
    /// nothing is ever cut.
    closed spec fn view(&self) -> BusView {
        BusView {
            capacity: self.capacity as nat,
            log: self.log@,
            cursors: Map::new(
                |id: nat| id < self.receivers.len() && self.receivers[id as int].active,
                |id: nat|
                    if self.receivers[id as int].position@ <= self.log@.len() {
                        self.receivers[id as int].position@
                    } else {
                        self.log@.len()
                    },
            ),
            closed: self.closed,
        }
    }
}

impl Bus {
    #[verifier::type_invariant]
    spec fn inv(self) -> bool {
        &&& self.retained.len() <= self.capacity
        &&& self.retained.len() <= self.log@.len()
        &&& self.retained.len() == self.capacity || self.retained.len() == self.log@.len()
        &&& forall|i: int|
            0 <= i < self.retained.len() ==> (#[trigger] self.retained[i])@ == self.log@[
                self.log@.len() - self.retained.len() + i]
        &&& forall|id: int|
            0 <= id < self.receivers.len() && (#[trigger] self.receivers[id]).active ==> {
                let cursor = self.receivers[id];
                &&& cursor.position@ <= self.log@.len()
                &&& cursor.unread <= self.retained.len()
                &&& if cursor.lagged {
                    &&& cursor.position@ + self.capacity < self.log@.len()
                    &&& cursor.unread == self.retained.len()
                } else {
                    cursor.position@ + cursor.unread == self.log@.len()
                }
            }
    }

    /// The state of a bus is always well formed.
    pub proof fn view_wf(&self)
        ensures
            self@.wf(),
    {
    }

    /// Creates an open bus that retains the newest `capacity` messages.
    pub fn new(capacity: usize) -> (bus: Bus)
        ensures
            bus@ == BusView::new(capacity as nat),
            bus@.wf(),
    {
        let bus = Bus {
            capacity,
            retained: VecDeque::new(),
            receivers: Vec::new(),
            closed: false,
            log: Ghost(Seq::empty()),
        };
        assert(bus@.cursors =~= Map::empty());
        bus
    }

    /// Closes the bus for good. What is pending can still be received.
    pub fn close(&mut self)
        ensures
            final(self)@ == old(self)@.close(),
            final(self)@.wf(),
    {
        proof {
            use_type_invariant(&*self);
        }
        self.closed = true;
    }

    /// How many of the newest messages the bus retains.
    pub fn capacity(&self) -> (capacity: usize)
        ensures
            capacity == self@.capacity,
    {
        self.capacity
    }

    /// Whether the bus has been closed.
    pub fn is_closed(&self) -> (closed: bool)
        ensures
            closed == self@.closed,
    {
        self.closed
    }

    /// Whether `id` names a current subscriber.
    pub fn is_subscribed(&self, id: usize) -> (subscribed: bool)
        ensures
            subscribed == self@.subscribed(id as nat),
    {
        id < self.receivers.len() && self.receivers[id].active
    }

    /// How many messages are pending for subscriber `id`; none for a handle
    /// that is not in use.
    pub fn pending(&self, id: usize) -> (count: usize)
        ensures
            self@.subscribed(id as nat) ==> count == self@.pending(id as nat).len(),
            !self@.subscribed(id as nat) ==> count == 0,
    {
        proof {
            use_type_invariant(self);
        }
        if id < self.receivers.len() && self.receivers[id].active {
            self.receivers[id].unread
        } else {
            0
        }
    }

    /// Whether anybody is subscribed.
    pub fn has_subscribers(&self) -> (any: bool)
        ensures
            any == self@.has_subscribers(),
    {
        let mut id: usize = 0;
        while id < self.receivers.len()
            invariant
                id <= self.receivers.len(),
                forall|other: int| 0 <= other < id ==> !self.receivers[other].active,
            decreases self.receivers.len() - id,
        {
            if self.receivers[id].active {
                assert(self@.cursors.contains_key(id as nat));
                return true;
            }
            id += 1;
        }
        false
    }

    /// Publishes a message to every current subscriber. It never fails: on a
    /// closed bus, or with nobody subscribed, the message is discarded.
    pub fn publish(&mut self, message: Message)
        ensures
            final(self)@ == old(self)@.publish(message@),
            final(self)@.wf(),
    {
        proof {
            use_type_invariant(&*self);
        }
        if self.closed || !self.has_subscribers() {
            return;
        }
        // The retained messages, the cursors and the log are bound to one
        // another by the invariant: they are taken out, changed together,
        // and put back as one value.
        let mut hollow = Bus::new(0);
        proof {
            use_type_invariant(&hollow);
        }
        std::mem::swap(self, &mut hollow);
        let Bus { capacity, mut retained, mut receivers, closed, log } = hollow;
        let ghost before = receivers@;
        let ghost grown = log@.push(message@);
        if capacity > 0 {
            if retained.len() == capacity {
                retained.pop_front();
            }
            retained.push_back(message);
        }
        let mut id: usize = 0;
        while id < receivers.len()
            invariant
                id <= receivers.len(),
                receivers.len() == before.len(),
                forall|other: int| 0 <= other < id ==> receivers[other] == before[other].advanced(capacity),
                forall|other: int| id <= other < before.len() ==> receivers[other] == before[other],
            decreases receivers.len() - id,
        {
            let next = receivers[id].advance(capacity);
            receivers.set(id, next);
            id += 1;
        }
        *self = Bus { capacity, retained, receivers, closed, log: Ghost(grown) };
        assert(self@.cursors =~= old(self)@.publish(message@).cursors);
    }

    /// Adds a subscriber that starts at the end of the log and returns its
    /// handle, the least one not in use. A closed bus takes no subscribers.
    pub fn subscribe(&mut self) -> (res: Result<usize, BusClosed>)
        ensures
            old(self)@.closed ==> res is Err && final(self)@ == old(self)@,
            !old(self)@.closed ==> res is Ok && old(self)@.is_next_id(res->Ok_0 as nat)
                && final(self)@ == old(self)@.subscribe(res->Ok_0 as nat),
            final(self)@.wf(),
    {
        proof {
            use_type_invariant(&*self);
        }
        if self.closed {
            return Err(BusClosed);
        }
        let fresh = Cursor { active: true, unread: 0, lagged: false, position: Ghost(self.log@.len()) };
        let mut receivers: Vec<Cursor> = Vec::new();
        std::mem::swap(&mut self.receivers, &mut receivers);
        let mut id: usize = 0;
        while id < receivers.len() && receivers[id].active
            invariant
                id <= receivers.len(),
                forall|other: int| 0 <= other < id ==> receivers[other].active,
            decreases receivers.len() - id,
        {
            id += 1;
        }
        if id < receivers.len() {
            receivers.set(id, fresh);
        } else {
            receivers.push(fresh);
        }
        self.receivers = receivers;
        assert(self@.cursors =~= old(self)@.subscribe(id as nat).cursors);
        Ok(id)
    }

    /// Removes subscriber `id`. A handle that is not in use is left alone.
    pub fn unsubscribe(&mut self, id: usize)
        ensures
            final(self)@ == old(self)@.unsubscribe(id as nat),
            final(self)@.wf(),
    {
        proof {
            use_type_invariant(&*self);
        }
        if id < self.receivers.len() {
            let mut receivers: Vec<Cursor> = Vec::new();
            std::mem::swap(&mut self.receivers, &mut receivers);
            let gone = Cursor { active: false, unread: 0, lagged: false, position: Ghost(0) };
            receivers.set(id, gone);
            self.receivers = receivers;
        }
        assert(self@.cursors =~= old(self)@.unsubscribe(id as nat).cursors);
    }

    /// Tries to hand the next message to subscriber `id`, without waiting.
    pub fn receive(&mut self, id: usize) -> (received: Received)
        ensures
            received@ == old(self)@.outcome(id as nat),
            final(self)@ == old(self)@.after_receive(id as nat),
            final(self)@.wf(),
    {
        proof {
            use_type_invariant(&*self);
        }
        if id >= self.receivers.len() || !self.receivers[id].active {
            return Received::Closed;
        }
        let unread = self.receivers[id].unread;
        let lagged = self.receivers[id].lagged;
        let ghost position = self.receivers[id as int].position@;
        if lagged {
            let ghost oldest = self@.oldest();
            let caught_up = Cursor { active: true, unread, lagged: false, position: Ghost(oldest) };
            let mut receivers: Vec<Cursor> = Vec::new();
            std::mem::swap(&mut self.receivers, &mut receivers);
            receivers.set(id, caught_up);
            self.receivers = receivers;
            assert(self@.cursors =~= old(self)@.after_receive(id as nat).cursors);
            Received::Lagged
        } else if unread > 0 {
            let message = self.retained[self.retained.len() - unread].clone();
            let moved = Cursor {
                active: true,
                unread: unread - 1,
                lagged: false,
                position: Ghost(position + 1),
            };
            let mut receivers: Vec<Cursor> = Vec::new();
            std::mem::swap(&mut self.receivers, &mut receivers);
            receivers.set(id, moved);
            self.receivers = receivers;
            assert(self@.cursors =~= old(self)@.after_receive(id as nat).cursors);
            Received::Message(message)
        } else if self.closed {
            Received::Closed
        } else {
            Received::Empty
        }
    }
}

} // verus!
