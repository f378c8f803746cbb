//! The user on whose behalf realtime messages are sent.
use vstd::prelude::*;

verus! {

/// A user of the realtime service, for the time of one request.
pub struct RealtimeUser {
    pub uid: i64,
    pub device_id: String,
    /// When the user connected, in the clock of the realtime service.
    pub connect_at: i64,
    pub session_id: String,
    pub app_version: String,
}

/// The header's value, or the empty text when the header is missing or unreadable.
pub fn header_or_empty(value: Option<String>) -> (text: String)
    ensures
        match value {
            Some(value) => text == value,
            None => text@ == Seq::<char>::empty(),
        },
{
    match value {
        Some(value) => value,
        None => String::new(),
    }
}

} // verus!
