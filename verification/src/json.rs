//! The wire form of a message: one JSON object with the three fields in
//! declaration order.
//!
//! The object's frame is written here. The JSON text of each field, with its
//! quotes and escapes, comes from `serde_json`.

use vstd::prelude::*;
use vstd::string::*;
use crate::message::{Message, MessageView};

verus! {

/// The JSON text that `serde_json` writes for a string: the string between
/// double quotes, with the characters that JSON reserves escaped.
pub uninterp spec fn json_string(text: Seq<char>) -> Seq<char>;

/// Calls `serde_json::to_string` on a string slice.
///
/// The contract claims that the text returned depends on the characters of
/// the argument alone, and names it `json_string`. Writing a string slice
/// into memory has no failing path in `serde_json`; the fallback to an empty
/// text is never taken.
#[verifier::external_body]
fn json_text(text: &str) -> (json: String)
    ensures
        json@ == json_string(text@),
{
    serde_json::to_string(text).unwrap_or_default()
}

/// The JSON object made of three field values that are already JSON text.
pub open spec fn json_object(room: Seq<char>, username: Seq<char>, message: Seq<char>) -> Seq<
    char,
> {
    "{\"room\":"@ + room + ",\"username\":"@ + username + ",\"message\":"@ + message + "}"@
}

/// Puts three field values that are already JSON text into the object frame.
pub fn frame(room: &str, username: &str, message: &str) -> (json: String)
    ensures
        json@ == json_object(room@, username@, message@),
{
    let mut json = String::from_str("{\"room\":");
    json.append(room);
    json.append(",\"username\":");
    json.append(username);
    json.append(",\"message\":");
    json.append(message);
    json.append("}");
    json
}

impl MessageView {
    /// The payload of the event that carries this message.
    pub open spec fn json(self) -> Seq<char> {
        json_object(json_string(self.room), json_string(self.username), json_string(self.message))
    }
}

impl Message {
    /// Serialises the message as the payload of one event.
    pub fn to_json(&self) -> (json: String)
        ensures
            json@ == self@.json(),
    {
        let room = json_text(self.room.as_str());
        let username = json_text(self.username.as_str());
        let message = json_text(self.message.as_str());
        frame(room.as_str(), username.as_str(), message.as_str())
    }
}

} // verus!
