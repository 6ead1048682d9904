use std::time::Instant;
use vstd::prelude::*;

verus! {

/// One chat message received from a stream.
#[derive(Clone, Debug)]
pub struct UserMessage {
    pub user_id: String,
    pub username: String,
    pub message: String,
    pub broadcast_id: String,
    pub broadcaster_name: String,
    pub timestamp: Instant,
}

impl UserMessage {
    /// Builds a message from borrowed text fields, copying each of them.
    pub fn new(
        user_id: &str,
        username: &str,
        message: &str,
        broadcast_id: &str,
        broadcaster_name: &str,
        timestamp: Instant,
    ) -> (r: Self)
        ensures
            r.user_id@ == user_id@,
            r.username@ == username@,
            r.message@ == message@,
            r.broadcast_id@ == broadcast_id@,
            r.broadcaster_name@ == broadcaster_name@,
            r.timestamp == timestamp,
    {
        UserMessage {
            user_id: String::from_str(user_id),
            username: String::from_str(username),
            message: String::from_str(message),
            broadcast_id: String::from_str(broadcast_id),
            broadcaster_name: String::from_str(broadcaster_name),
            timestamp,
        }
    }
}

} // verus!
