//! The channel-activity signal: a client reports that a session opened or
//! closed a channel, and the core decides the presence-store write that
//! records it. Permission checking and session authentication belong to the
//! caller; the store write itself is carried out by the driver.

use vstd::prelude::*;
use crate::presence::{session_key, session_key_spec, PRESENCE_TTL_SECONDS};

verus! {

/// Kind of activity: a channel was opened for viewing, or closed.
#[derive(Clone, Copy, PartialEq, Eq, Structural)]
pub enum ChannelActivityType {
    Open,
    Close,
}

/// Request body of an activity signal.
#[derive(Clone, Copy, PartialEq, Eq, Structural)]
pub struct ChannelActivityRequest {
    pub activity_type: ChannelActivityType,
}

/// What a write does to a session's channel set.
pub enum PresenceOp {
    /// Add the channel to the set and reset the record's expiry.
    Open { channel: String, ttl_seconds: u64 },
    /// Remove the channel from the set, leaving the expiry untouched.
    Close { channel: String },
}

/// One write against the presence store.
pub struct PresenceWrite {
    pub key: String,
    pub op: PresenceOp,
}

/// Why an activity signal is rejected.
#[derive(Clone, Copy, Debug, PartialEq, Eq, Structural)]
pub enum ActivityError {
    /// Bot sessions carry no presence.
    IsBot,
}

/// Decides the store write an activity signal requires: open adds the
/// channel to the session's record and resets its time to live, close only
/// removes it. A bot user is rejected and nothing is written.
pub fn update_activity(
    is_bot: bool,
    user_id: &str,
    session_id: &str,
    channel_id: &String,
    data: &ChannelActivityRequest,
) -> (r: Result<PresenceWrite, ActivityError>)
    ensures
        is_bot ==> r matches Err(ActivityError::IsBot),
        !is_bot ==> (r matches Ok(w) && w.key@ == session_key_spec(user_id@, session_id@)
            && (match data.activity_type {
            ChannelActivityType::Open => (w.op matches PresenceOp::Open { channel, ttl_seconds }
                && channel@ == channel_id@ && ttl_seconds == PRESENCE_TTL_SECONDS),
            ChannelActivityType::Close => (w.op matches PresenceOp::Close { channel } && channel@
                == channel_id@),
        })),
{
    if is_bot {
        return Err(ActivityError::IsBot);
    }
    let key = session_key(user_id, session_id);
    let op = match data.activity_type {
        ChannelActivityType::Open => PresenceOp::Open {
            channel: channel_id.clone(),
            ttl_seconds: PRESENCE_TTL_SECONDS,
        },
        ChannelActivityType::Close => PresenceOp::Close { channel: channel_id.clone() },
    };
    Ok(PresenceWrite { key, op })
}

} // verus!
