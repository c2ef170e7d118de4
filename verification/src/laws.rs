//! What holds of the relay as a whole, stated over the mathematical states of
//! the bus and of a stream and proved from their definitions.

use vstd::prelude::*;
use crate::bus::{BusView, ReceivedView};
use crate::message::MessageView;
use crate::stream::{step, ActionView, SignalView, StreamState};
use crate::submit;

verus! {

/// A submission is accepted exactly when the room has at most 29 characters
/// and the user name at most 19.
pub proof fn lemma_check_accepts_within_limits(form: MessageView)
    ensures
        form.check() is Ok <==> form.room.len() <= 29 && form.username.len() <= 19,
        form.check() is Ok <==> form.valid(),
{
}

/// Every operation of the bus keeps its state well formed.
pub proof fn lemma_wf_is_kept(bus: BusView, id: nat, message: MessageView)
    requires
        bus.wf(),
    ensures
        BusView::new(bus.capacity).wf(),
        bus.publish(message).wf(),
        bus.subscribe(id).wf(),
        bus.unsubscribe(id).wf(),
        bus.close().wf(),
        bus.after_receive(id).wf(),
{
}

/// The handle of the next subscriber is determined by who is subscribed.
pub proof fn lemma_next_id_is_unique(bus: BusView, one: nat, other: nat)
    requires
        bus.is_next_id(one),
        bus.is_next_id(other),
    ensures
        one == other,
{
}

/// A subscriber starts with nothing pending: it sees only what is published
/// after it subscribed.
pub proof fn lemma_subscriber_starts_empty(bus: BusView, id: nat)
    requires
        bus.wf(),
    ensures
        bus.subscribe(id).caught_up(id),
        bus.subscribe(id).pending(id) =~= Seq::empty(),
        !bus.subscribe(id).lagging(id),
{
}

/// One attempt to receive hands out the first pending message and leaves the
/// rest pending. An attempt that skips a gap hands out nothing and leaves
/// all of it pending. With nothing pending the attempt finds the bus empty,
/// or closed if it is, and changes nothing.
pub proof fn lemma_receive_takes_first_pending(bus: BusView, id: nat)
    requires
        bus.wf(),
        bus.subscribed(id),
    ensures
        bus.lagging(id) ==> bus.outcome(id) == ReceivedView::Lagged && bus.after_receive(
            id,
        ).pending(id) == bus.pending(id) && !bus.after_receive(id).lagging(id),
        !bus.lagging(id) && bus.pending(id).len() > 0 ==> bus.outcome(id) == ReceivedView::Message(
            bus.pending(id)[0],
        ) && bus.after_receive(id).pending(id) == bus.pending(id).skip(1) && !bus.after_receive(
            id,
        ).lagging(id),
        !bus.lagging(id) && bus.pending(id).len() == 0 ==> bus.outcome(id) == (if bus.closed {
            ReceivedView::Closed
        } else {
            ReceivedView::Empty
        }) && bus.after_receive(id) == bus,
{
    if bus.lagging(id) {
        assert(bus.after_receive(id).pending(id) =~= bus.pending(id));
    } else if bus.pending(id).len() > 0 {
        assert(bus.after_receive(id).pending(id) =~= bus.pending(id).skip(1));
    }
}

/// What a subscriber receives, attempt after attempt, is exactly what was
/// pending for it, in the order of publication.
pub proof fn lemma_deliveries_are_pending(bus: BusView, id: nat, attempts: nat)
    requires
        bus.wf(),
        bus.subscribed(id),
        attempts >= bus.attempts_needed(id),
    ensures
        bus.deliveries(id, attempts) == bus.pending(id),
    decreases attempts,
{
    lemma_receive_takes_first_pending(bus, id);
    if attempts == 0 {
        assert(bus.pending(id) =~= Seq::empty());
    } else {
        let next = bus.after_receive(id);
        lemma_deliveries_are_pending(next, id, (attempts - 1) as nat);
        if !bus.lagging(id) && bus.pending(id).len() > 0 {
            assert(seq![bus.pending(id)[0]] + bus.pending(id).skip(1) =~= bus.pending(id));
        }
    }
}

/// Publishing to an open bus with a subscriber appends to the log and
/// touches nothing else; otherwise the messages are discarded.
pub proof fn lemma_publish_all_appends(bus: BusView, messages: Seq<MessageView>)
    ensures
        !bus.closed && bus.has_subscribers() ==> bus.publish_all(messages) == (BusView {
            log: bus.log + messages,
            ..bus
        }),
        bus.closed || !bus.has_subscribers() ==> bus.publish_all(messages) == bus,
    decreases messages.len(),
{
    if messages.len() == 0 {
        assert(bus.log + messages =~= bus.log);
    } else {
        lemma_publish_all_appends(bus, messages.drop_last());
        let before = bus.publish_all(messages.drop_last());
        if !bus.closed && bus.has_subscribers() {
            let id = choose|id: nat| bus.cursors.contains_key(id);
            assert(before.cursors.contains_key(id));
            assert((bus.log + messages.drop_last()).push(messages.last()) =~= bus.log + messages);
        }
    }
}

/// A submission within the limits, made while a subscriber is listening
/// that has not fallen behind, is added to what is pending for that
/// subscriber: it will be delivered to it once, after the earlier messages.
pub proof fn lemma_valid_submission_becomes_pending(bus: BusView, id: nat, form: MessageView)
    requires
        bus.wf(),
        !bus.closed,
        bus.subscribed(id),
        !bus.lagging(id),
        bus.pending(id).len() < bus.capacity,
        form.room.len() <= 29,
        form.username.len() <= 19,
    ensures
        form.check() is Ok,
        submit(bus, form).wf(),
        submit(bus, form).subscribed(id),
        !submit(bus, form).lagging(id),
        submit(bus, form).pending(id) == bus.pending(id).push(form),
{
    assert(submit(bus, form).pending(id) =~= bus.pending(id).push(form));
}

/// A submission within the limits, made while a subscriber that has read
/// everything is listening, is delivered to that subscriber exactly once and
/// field for field: its next attempt to receive yields the message, the one
/// after that finds the bus empty, and however often it tries, the message
/// is all it gets. A stream of that subscriber sends the message on as its
/// JSON payload.
pub proof fn lemma_valid_submission_is_delivered_once(
    bus: BusView,
    id: nat,
    form: MessageView,
    attempts: nat,
)
    requires
        bus.wf(),
        !bus.closed,
        bus.capacity > 0,
        bus.caught_up(id),
        form.room.len() <= 29,
        form.username.len() <= 19,
        attempts > 0,
    ensures
        form.check() is Ok,
        submit(bus, form).outcome(id) == ReceivedView::Message(form),
        submit(bus, form).after_receive(id).outcome(id) == ReceivedView::Empty,
        submit(bus, form).deliveries(id, attempts) == seq![form],
        step(
            StreamState::Subscribed,
            SignalView::Received(submit(bus, form).outcome(id)),
        ) == (StreamState::Streaming, ActionView::Emit(form.json())),
{
    lemma_valid_submission_becomes_pending(bus, id, form);
    assert(bus.pending(id).push(form) =~= seq![form]);
    lemma_deliveries_are_pending(submit(bus, form), id, attempts);
}

/// A submission beyond the limits is turned away and leaves the bus as it
/// was: no subscriber can ever observe it.
pub proof fn lemma_invalid_submission_is_never_seen(bus: BusView, form: MessageView)
    requires
        form.room.len() >= 30 || form.username.len() >= 20,
    ensures
        form.check() is Err,
        submit(bus, form) == bus,
{
}

/// Publishing while nobody is subscribed discards the message and is no
/// error: the bus stays as it was, and a submission within the limits is
/// still accepted.
pub proof fn lemma_publish_without_subscribers_discards(bus: BusView, form: MessageView)
    requires
        !bus.has_subscribers(),
    ensures
        bus.publish(form) == bus,
        submit(bus, form) == bus,
        form.valid() ==> form.check() is Ok,
{
}

/// A message published while two subscribers are listening becomes the
/// newest pending message of both.
pub proof fn lemma_all_subscribers_receive(
    bus: BusView,
    first: nat,
    second: nat,
    message: MessageView,
)
    requires
        bus.wf(),
        !bus.closed,
        bus.capacity > 0,
        bus.subscribed(first),
        bus.subscribed(second),
    ensures
        bus.publish(message).pending(first).len() > 0,
        bus.publish(message).pending(first).last() == message,
        bus.publish(message).pending(second).len() > 0,
        bus.publish(message).pending(second).last() == message,
{
}

/// Two subscribers see the same order: what is pending for one of them is
/// what is pending for the other, without its first few messages.
pub proof fn lemma_subscribers_share_one_order(bus: BusView, first: nat, second: nat)
    requires
        bus.wf(),
        bus.subscribed(first),
        bus.subscribed(second),
        bus.start(first) <= bus.start(second),
    ensures
        bus.pending(second) == bus.pending(first).skip(bus.start(second) - bus.start(first)),
{
    assert(bus.pending(second) =~= bus.pending(first).skip(bus.start(second) - bus.start(first)));
}

/// Messages published while a subscriber is listening are added to what is
/// pending for it, in the order of publication, as long as the capacity is
/// not exceeded. Two subscribers that had read everything before therefore
/// have the same messages pending in the same order.
pub proof fn lemma_published_messages_become_pending(
    bus: BusView,
    id: nat,
    messages: Seq<MessageView>,
)
    requires
        bus.wf(),
        !bus.closed,
        bus.subscribed(id),
        !bus.lagging(id),
        bus.pending(id).len() + messages.len() <= bus.capacity,
    ensures
        bus.publish_all(messages).wf(),
        bus.publish_all(messages).subscribed(id),
        !bus.publish_all(messages).lagging(id),
        bus.publish_all(messages).pending(id) == bus.pending(id) + messages,
{
    lemma_publish_all_appends(bus, messages);
    assert(bus.publish_all(messages).pending(id) =~= bus.pending(id) + messages);
}

/// Two subscribers that had read everything receive the messages published
/// from then on alike: the same messages in the order of publication, as
/// long as the capacity is not exceeded.
pub proof fn lemma_two_subscribers_receive_alike(
    bus: BusView,
    first: nat,
    second: nat,
    messages: Seq<MessageView>,
    attempts: nat,
)
    requires
        bus.wf(),
        !bus.closed,
        bus.caught_up(first),
        bus.caught_up(second),
        messages.len() <= bus.capacity,
        attempts >= messages.len(),
    ensures
        bus.publish_all(messages).deliveries(first, attempts) == messages,
        bus.publish_all(messages).deliveries(second, attempts) == messages,
{
    lemma_published_messages_become_pending(bus, first, messages);
    lemma_published_messages_become_pending(bus, second, messages);
    assert(bus.pending(first) + messages =~= messages);
    assert(bus.pending(second) + messages =~= messages);
    lemma_deliveries_are_pending(bus.publish_all(messages), first, attempts);
    lemma_deliveries_are_pending(bus.publish_all(messages), second, attempts);
}

/// A subscriber that did not receive while more messages were published
/// than the bus retains gets no error. Its next attempt skips the gap, and
/// the one after that yields the oldest retained message, which was
/// published later than the oldest message it had not read.
pub proof fn lemma_slow_subscriber_skips_ahead(
    bus: BusView,
    id: nat,
    messages: Seq<MessageView>,
    state: StreamState,
)
    requires
        bus.wf(),
        !bus.closed,
        bus.capacity > 0,
        bus.subscribed(id),
        messages.len() > bus.capacity,
        state != StreamState::Closing,
    ensures
        bus.publish_all(messages).outcome(id) == ReceivedView::Lagged,
        step(state, SignalView::Received(ReceivedView::Lagged)) == (state, ActionView::Retry),
        bus.publish_all(messages).after_receive(id).outcome(id) == ReceivedView::Message(
            messages[messages.len() - bus.capacity],
        ),
        bus.publish_all(messages).after_receive(id).cursors[id] > bus.cursors[id],
        bus.publish_all(messages).after_receive(id).pending(id) == messages.skip(
            messages.len() - bus.capacity,
        ),
{
    lemma_publish_all_appends(bus, messages);
    let after = bus.publish_all(messages).after_receive(id);
    assert(after.pending(id) =~= messages.skip(messages.len() - bus.capacity));
}

/// The actions of a stream that is woken by one signal after the other.
pub open spec fn run(state: StreamState, signals: Seq<SignalView>) -> Seq<ActionView>
    decreases signals.len(),
{
    if signals.len() == 0 {
        Seq::empty()
    } else {
        let (next, action) = step(state, signals[0]);
        seq![action] + run(next, signals.skip(1))
    }
}

/// A closed stream only ever closes: it sends nothing, whatever wakes it.
pub proof fn lemma_closed_stream_stays_silent(signals: Seq<SignalView>, at: int)
    requires
        0 <= at < signals.len(),
    ensures
        run(StreamState::Closing, signals).len() == signals.len(),
        run(StreamState::Closing, signals)[at] == ActionView::Close,
    decreases signals.len(),
{
    lemma_run_length(StreamState::Closing, signals);
    if at > 0 {
        lemma_closed_stream_stays_silent(signals.skip(1), at - 1);
    }
}

/// A stream takes one action for each signal.
pub proof fn lemma_run_length(state: StreamState, signals: Seq<SignalView>)
    ensures
        run(state, signals).len() == signals.len(),
    decreases signals.len(),
{
    if signals.len() > 0 {
        lemma_run_length(step(state, signals[0]).0, signals.skip(1));
    }
}

/// Shutdown ends a stream in one step, whatever its state and whatever is
/// pending on the bus, and from then on the stream sends nothing.
pub proof fn lemma_shutdown_ends_stream(
    state: StreamState,
    signals: Seq<SignalView>,
    at: int,
    later: int,
)
    requires
        0 <= at <= later < signals.len(),
        signals[at] == SignalView::Shutdown,
    ensures
        step(state, SignalView::Shutdown) == (StreamState::Closing, ActionView::Close),
        run(state, signals).len() == signals.len(),
        run(state, signals)[later] == ActionView::Close,
    decreases signals.len(),
{
    lemma_run_length(state, signals);
    let (next, action) = step(state, signals[0]);
    if at == 0 {
        if later > 0 {
            lemma_closed_stream_stays_silent(signals.skip(1), later - 1);
        }
    } else {
        lemma_shutdown_ends_stream(next, signals.skip(1), at - 1, later - 1);
    }
}

} // verus!
