use chat_relay::bus::{Bus, BusClosed, Received};
use chat_relay::message::{FieldError, Message};
use chat_relay::stream::{transition, Action, Signal, Stream, StreamState};
use chat_relay::{events, post, rocket, CAPACITY};

fn numbered(n: usize) -> Message {
    Message::new("lobby", "alice", &format!("message {n}"))
}

fn thirty_x() -> String {
    "x".repeat(30)
}

#[test]
fn relay_starts_with_an_empty_bus_of_1024() {
    let queue = rocket();
    assert_eq!(CAPACITY, 1024);
    assert_eq!(queue.capacity(), 1024);
    assert!(!queue.is_closed());
    assert!(!queue.has_subscribers());
}

#[test]
fn submission_reaches_the_prior_subscriber_once_as_json() {
    let mut queue = rocket();
    let mut stream = Stream::open(&mut queue).unwrap();
    assert_eq!(stream.state, StreamState::Subscribed);
    assert_eq!(post(Message::new("lobby", "alice", "hi"), &mut queue), Ok(()));
    assert_eq!(
        events(&mut stream, &mut queue, false),
        Action::Emit(String::from(
            "{\"room\":\"lobby\",\"username\":\"alice\",\"message\":\"hi\"}"
        ))
    );
    assert_eq!(stream.state, StreamState::Streaming);
    assert_eq!(events(&mut stream, &mut queue, false), Action::Wait);
    assert_eq!(stream.state, StreamState::Streaming);
}

#[test]
fn submission_with_a_room_of_thirty_is_rejected_and_not_emitted() {
    let mut queue = rocket();
    let mut stream = Stream::open(&mut queue).unwrap();
    assert_eq!(
        post(Message::new(&thirty_x(), "bob", "x"), &mut queue),
        Err(FieldError::RoomTooLong)
    );
    assert_eq!(queue.pending(stream.receiver), 0);
    assert_eq!(events(&mut stream, &mut queue, false), Action::Wait);
    assert_eq!(stream.state, StreamState::Subscribed);
}

#[test]
fn submission_with_a_username_of_twenty_is_rejected_and_not_emitted() {
    let mut queue = rocket();
    let mut stream = Stream::open(&mut queue).unwrap();
    assert_eq!(
        post(Message::new("lobby", &"b".repeat(20), "x"), &mut queue),
        Err(FieldError::UsernameTooLong)
    );
    assert_eq!(events(&mut stream, &mut queue, false), Action::Wait);
}

#[test]
fn submission_at_the_limits_is_delivered_field_for_field() {
    let mut queue = rocket();
    let rx = queue.subscribe().unwrap();
    let m = Message::new(&"r".repeat(29), &"u".repeat(19), "text");
    assert_eq!(post(m.clone(), &mut queue), Ok(()));
    assert_eq!(queue.receive(rx), Received::Message(m));
    assert_eq!(queue.receive(rx), Received::Empty);
}

#[test]
fn submission_without_subscribers_is_accepted_and_discarded() {
    let mut queue = rocket();
    assert_eq!(post(Message::new("lobby", "alice", "hi"), &mut queue), Ok(()));
    let mut stream = Stream::open(&mut queue).unwrap();
    assert_eq!(events(&mut stream, &mut queue, false), Action::Wait);
}

#[test]
fn submission_to_a_closed_bus_is_accepted_and_ignored() {
    let mut queue = rocket();
    let rx = queue.subscribe().unwrap();
    queue.close();
    assert_eq!(post(Message::new("lobby", "alice", "hi"), &mut queue), Ok(()));
    assert_eq!(queue.receive(rx), Received::Closed);
}

#[test]
fn two_streams_emit_the_same_events_in_the_same_order() {
    let mut queue = rocket();
    let mut s1 = Stream::open(&mut queue).unwrap();
    let mut s2 = Stream::open(&mut queue).unwrap();
    for n in 0..5 {
        assert_eq!(post(numbered(n), &mut queue), Ok(()));
    }
    for n in 0..5 {
        let expected = Action::Emit(numbered(n).to_json());
        assert_eq!(events(&mut s1, &mut queue, false), expected);
        assert_eq!(events(&mut s2, &mut queue, false), expected);
    }
    assert_eq!(events(&mut s1, &mut queue, false), Action::Wait);
    assert_eq!(events(&mut s2, &mut queue, false), Action::Wait);
}

#[test]
fn stream_that_fell_behind_by_more_than_1024_skips_the_gap() {
    let mut queue = rocket();
    let mut stream = Stream::open(&mut queue).unwrap();
    for n in 0..1030 {
        assert_eq!(post(numbered(n), &mut queue), Ok(()));
    }
    // No error and no event for the gap.
    assert_eq!(events(&mut stream, &mut queue, false), Action::Retry);
    assert_eq!(stream.state, StreamState::Subscribed);
    // The next event is the oldest retained message, not the oldest unread.
    assert_eq!(
        events(&mut stream, &mut queue, false),
        Action::Emit(numbered(6).to_json())
    );
    for n in 7..1030 {
        assert_eq!(
            events(&mut stream, &mut queue, false),
            Action::Emit(numbered(n).to_json())
        );
    }
    assert_eq!(events(&mut stream, &mut queue, false), Action::Wait);
}

#[test]
fn stream_that_fell_behind_by_exactly_1024_loses_nothing() {
    let mut queue = rocket();
    let mut stream = Stream::open(&mut queue).unwrap();
    for n in 0..1024 {
        assert_eq!(post(numbered(n), &mut queue), Ok(()));
    }
    for n in 0..1024 {
        assert_eq!(
            events(&mut stream, &mut queue, false),
            Action::Emit(numbered(n).to_json())
        );
    }
    assert_eq!(events(&mut stream, &mut queue, false), Action::Wait);
}

#[test]
fn shutdown_ends_the_stream_whatever_is_pending() {
    let mut queue = rocket();
    let mut stream = Stream::open(&mut queue).unwrap();
    assert_eq!(post(numbered(1), &mut queue), Ok(()));
    assert_eq!(events(&mut stream, &mut queue, true), Action::Close);
    assert_eq!(stream.state, StreamState::Closing);
    assert!(!queue.is_subscribed(stream.receiver));
    // Nothing is delivered after the end, with or without the signal.
    assert_eq!(post(numbered(2), &mut queue), Ok(()));
    assert_eq!(events(&mut stream, &mut queue, false), Action::Close);
    assert_eq!(events(&mut stream, &mut queue, true), Action::Close);
    assert_eq!(stream.state, StreamState::Closing);
}

#[test]
fn shutdown_ends_every_stream() {
    let mut queue = rocket();
    let mut streams: Vec<Stream> = (0..3).map(|_| Stream::open(&mut queue).unwrap()).collect();
    assert_eq!(post(numbered(1), &mut queue), Ok(()));
    assert_eq!(
        events(&mut streams[0], &mut queue, false),
        Action::Emit(numbered(1).to_json())
    );
    for stream in streams.iter_mut() {
        assert_eq!(events(stream, &mut queue, true), Action::Close);
        assert_eq!(stream.state, StreamState::Closing);
    }
    assert!(!queue.has_subscribers());
}

#[test]
fn closed_stream_does_not_disturb_a_reused_handle() {
    let mut queue = rocket();
    let mut old = Stream::open(&mut queue).unwrap();
    assert_eq!(events(&mut old, &mut queue, true), Action::Close);
    let mut new = Stream::open(&mut queue).unwrap();
    assert_eq!(new.receiver, old.receiver);
    assert_eq!(post(numbered(1), &mut queue), Ok(()));
    assert_eq!(events(&mut old, &mut queue, false), Action::Close);
    assert_eq!(
        events(&mut new, &mut queue, false),
        Action::Emit(numbered(1).to_json())
    );
}

#[test]
fn end_of_the_bus_ends_the_stream_after_what_is_pending() {
    let mut queue = rocket();
    let mut stream = Stream::open(&mut queue).unwrap();
    assert_eq!(post(numbered(1), &mut queue), Ok(()));
    queue.close();
    assert_eq!(
        events(&mut stream, &mut queue, false),
        Action::Emit(numbered(1).to_json())
    );
    assert_eq!(events(&mut stream, &mut queue, false), Action::Close);
    assert_eq!(stream.state, StreamState::Closing);
    assert!(!queue.is_subscribed(stream.receiver));
}

#[test]
fn closed_bus_opens_no_stream() {
    let mut queue = Bus::new(4);
    queue.close();
    assert_eq!(Stream::open(&mut queue), Err(BusClosed));
}

#[test]
fn transition_follows_the_state_machine() {
    let m = Message::new("lobby", "alice", "hi");
    let json = m.to_json();
    for state in [StreamState::Subscribed, StreamState::Streaming] {
        assert_eq!(
            transition(state, Signal::Received(Received::Message(m.clone()))),
            (StreamState::Streaming, Action::Emit(json.clone()))
        );
        assert_eq!(
            transition(state, Signal::Received(Received::Lagged)),
            (state, Action::Retry)
        );
        assert_eq!(
            transition(state, Signal::Received(Received::Empty)),
            (state, Action::Wait)
        );
        assert_eq!(
            transition(state, Signal::Received(Received::Closed)),
            (StreamState::Closing, Action::Close)
        );
        assert_eq!(
            transition(state, Signal::Shutdown),
            (StreamState::Closing, Action::Close)
        );
    }
}

#[test]
fn transition_never_leaves_closing() {
    let m = Message::new("lobby", "alice", "hi");
    let closed = (StreamState::Closing, Action::Close);
    assert_eq!(
        transition(StreamState::Closing, Signal::Received(Received::Message(m))),
        closed
    );
    assert_eq!(
        transition(StreamState::Closing, Signal::Received(Received::Lagged)),
        closed
    );
    assert_eq!(
        transition(StreamState::Closing, Signal::Received(Received::Empty)),
        closed
    );
    assert_eq!(
        transition(StreamState::Closing, Signal::Received(Received::Closed)),
        closed
    );
    assert_eq!(transition(StreamState::Closing, Signal::Shutdown), closed);
}
