//! The chat message and the length rules it must meet to be relayed.

use vstd::prelude::*;
use vstd::string::*;

verus! {

/// A room name is relayed only when it is shorter than this many characters.
pub const ROOM_LIMIT: usize = 30;

/// A user name is relayed only when it is shorter than this many characters.
pub const USERNAME_LIMIT: usize = 20;

/// The mathematical value of a [`Message`]: its three fields as sequences of
/// characters.
pub struct MessageView {
    pub room: Seq<char>,
    pub username: Seq<char>,
    pub message: Seq<char>,
}

/// The reason a submitted message is turned away.
#[derive(Debug, Clone, Copy, PartialEq, Eq, Structural)]
pub enum FieldError {
    /// The room name has `ROOM_LIMIT` characters or more.
    RoomTooLong,
    /// The room name is acceptable, but the user name has `USERNAME_LIMIT`
    /// characters or more.
    UsernameTooLong,
}

impl MessageView {
    /// Both bounded fields are within their limits.
    pub open spec fn valid(self) -> bool {
        self.room.len() < ROOM_LIMIT && self.username.len() < USERNAME_LIMIT
    }

    /// The verdict on a submission: the first bounded field, in declaration
    /// order, that is too long, or `Ok` when none is.
    pub open spec fn check(self) -> Result<(), FieldError> {
        if self.room.len() >= ROOM_LIMIT {
            Err(FieldError::RoomTooLong)
        } else if self.username.len() >= USERNAME_LIMIT {
            Err(FieldError::UsernameTooLong)
        } else {
            Ok(())
        }
    }
}

/// One chat message. It has no identity beyond its contents.
#[derive(Debug, PartialEq, Eq)]
pub struct Message {
    pub room: String,
    pub username: String,
    pub message: String,
}

impl View for Message {
    type V = MessageView;

    open spec fn view(&self) -> MessageView {
        MessageView { room: self.room@, username: self.username@, message: self.message@ }
    }
}

impl Clone for Message {
    fn clone(&self) -> (copy: Self)
        ensures
            copy@ == self@,
    {
        Message {
            room: self.room.clone(),
            username: self.username.clone(),
            message: self.message.clone(),
        }
    }
}

impl Message {
    /// Builds a message from its three fields, without judging their lengths.
    pub fn new(room: &str, username: &str, message: &str) -> (built: Message)
        ensures
            built@ == (MessageView { room: room@, username: username@, message: message@ }),
    {
        Message {
            room: String::from_str(room),
            username: String::from_str(username),
            message: String::from_str(message),
        }
    }

    /// Judges the lengths of the bounded fields, counted in characters.
    pub fn validate(&self) -> (verdict: Result<(), FieldError>)
        ensures
            verdict == self@.check(),
            verdict is Ok <==> self@.valid(),
    {
        if self.room.as_str().unicode_len() >= ROOM_LIMIT {
            Err(FieldError::RoomTooLong)
        } else if self.username.as_str().unicode_len() >= USERNAME_LIMIT {
            Err(FieldError::UsernameTooLong)
        } else {
            Ok(())
        }
    }
}

} // verus!
