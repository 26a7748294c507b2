//! Building the broker publish for each event kind.
//!
//! Each builder resolves the target exchange and routing key from the
//! configuration, frames the event's JSON payload exactly, and fixes the
//! delivery metadata: structured-JSON content type, persistence on, and — for
//! acknowledgements — a deduplication key. Snapshots owned by outside
//! collaborators (user records, the push-notification object) arrive already
//! encoded and are spliced into the frame verbatim; for a message event the
//! caller passes its text through the spoiler redaction first. The network
//! send itself is the driver's, which reports back a [`BrokerReport`].

use vstd::prelude::*;
use crate::json::{
    json_array_of_strings, json_raw_array, json_string_array, json_string_lit, json_string_of,
    json_array_of_raw,
};
use crate::presence::{filter_seq, filter_viewers, UserPresence};

verus! {

/// Per-event routing read from the externally owned configuration.
#[derive(Clone)]
pub struct PushConfig {
    pub exchange: String,
    pub fr_accepted_key: String,
    pub fr_received_key: String,
    pub generic_key: String,
    pub message_key: String,
    pub mass_mention_key: String,
    pub ack_queue: String,
}

/// One fully described broker publish: where it goes, the exact body, and
/// the delivery metadata attached to it.
pub struct PublishRequest {
    pub exchange: String,
    pub routing_key: String,
    pub body: String,
    pub content_type: String,
    pub persistent: bool,
    pub dedup_key: Option<String>,
}

/// The delivery metadata every event shares: the given target, the
/// structured-JSON content type, and persistence across broker restarts.
pub open spec fn standard_envelope(
    r: PublishRequest,
    exchange: Seq<char>,
    routing_key: Seq<char>,
) -> bool {
    &&& r.exchange@ == exchange
    &&& r.routing_key@ == routing_key
    &&& r.content_type@ == "application/json"@
    &&& r.persistent
}

/// Wire body of a friend-request-accepted event.
pub open spec fn fr_accepted_body(accepted_user_json: Seq<char>, user_id: Seq<char>) -> Seq<char> {
    "{\"accepted_user\":"@ + accepted_user_json + ",\"user\":"@ + json_string_lit(user_id) + "}"@
}

/// Wire body of a friend-request-received event.
pub open spec fn fr_received_body(from_user_json: Seq<char>, user_id: Seq<char>) -> Seq<char> {
    "{\"from_user\":"@ + from_user_json + ",\"user\":"@ + json_string_lit(user_id) + "}"@
}

/// Wire body of a generic notification; the icon field is omitted when
/// there is none.
pub open spec fn generic_body(
    title: Seq<char>,
    body: Seq<char>,
    icon: Option<Seq<char>>,
    user_json: Seq<char>,
) -> Seq<char> {
    match icon {
        Some(ic) => "{\"title\":"@ + json_string_lit(title) + ",\"body\":"@ + json_string_lit(body)
            + ",\"icon\":"@ + json_string_lit(ic) + ",\"user\":"@ + user_json + "}"@,
        None => "{\"title\":"@ + json_string_lit(title) + ",\"body\":"@ + json_string_lit(body)
            + ",\"user\":"@ + user_json + "}"@,
    }
}

/// Wire body of a message-sent event: the notification object and the
/// recipients that are to be notified.
pub open spec fn message_sent_body(notification_json: Seq<char>, users: Seq<Seq<char>>) -> Seq<char> {
    "{\"notification\":"@ + notification_json + ",\"users\":"@ + json_string_array(users) + "}"@
}

/// Wire body of a mass-mention event.
pub open spec fn mass_mention_body(notification_jsons: Seq<Seq<char>>, server_id: Seq<char>) -> Seq<char> {
    "{\"notifications\":"@ + json_raw_array(notification_jsons) + ",\"server_id\":"@
        + json_string_lit(server_id) + "}"@
}

/// Wire body of an acknowledgement event.
pub open spec fn ack_body(user_id: Seq<char>, channel_id: Seq<char>, message_id: Seq<char>) -> Seq<char> {
    "{\"user_id\":"@ + json_string_lit(user_id) + ",\"channel_id\":"@ + json_string_lit(channel_id)
        + ",\"message_id\":"@ + json_string_lit(message_id) + "}"@
}

/// The deduplication key of an acknowledgement.
pub open spec fn dedup_key_spec(user_id: Seq<char>, channel_id: Seq<char>) -> Seq<char> {
    user_id + "-"@ + channel_id
}

/// The view of an optional string.
pub open spec fn view_opt(o: Option<String>) -> Option<Seq<char>> {
    match o {
        Some(s) => Some(s@),
        None => None,
    }
}

fn request(
    exchange: &String,
    routing_key: &String,
    body: String,
    dedup_key: Option<String>,
) -> (r: PublishRequest)
    ensures
        r.exchange@ == exchange@,
        r.routing_key@ == routing_key@,
        r.body == body,
        r.content_type@ == "application/json"@,
        r.persistent,
        r.dedup_key == dedup_key,
{
    PublishRequest {
        exchange: exchange.clone(),
        routing_key: routing_key.clone(),
        body,
        content_type: String::from_str("application/json"),
        persistent: true,
        dedup_key,
    }
}

/// Builds the publish for each event kind against one configuration.
#[derive(Clone)]
pub struct Publisher {
    pub config: PushConfig,
}

impl Publisher {
    /// A publisher resolving targets from `config`.
    pub fn new(config: PushConfig) -> (p: Publisher)
        ensures
            p.config == config,
    {
        Publisher { config }
    }

    /// A friend request of `sent_request_user_id` was accepted by the user
    /// whose encoded snapshot is `accepted_user_json`.
    pub fn friend_request_accepted(
        &self,
        accepted_user_json: &str,
        sent_request_user_id: &str,
    ) -> (r: PublishRequest)
        ensures
            standard_envelope(r, self.config.exchange@, self.config.fr_accepted_key@),
            r.dedup_key is None,
            r.body@ == fr_accepted_body(accepted_user_json@, sent_request_user_id@),
    {
        let mut body = String::from_str("{\"accepted_user\":");
        body.append(accepted_user_json);
        body.append(",\"user\":");
        let id = json_string_of(sent_request_user_id);
        body.append(id.as_str());
        body.append("}");
        proof {
            assert(body@ =~= fr_accepted_body(accepted_user_json@, sent_request_user_id@));
        }
        request(&self.config.exchange, &self.config.fr_accepted_key, body, None)
    }

    /// `received_request_user_id` received a friend request from the user
    /// whose encoded snapshot is `from_user_json`.
    pub fn friend_request_received(
        &self,
        from_user_json: &str,
        received_request_user_id: &str,
    ) -> (r: PublishRequest)
        ensures
            standard_envelope(r, self.config.exchange@, self.config.fr_received_key@),
            r.dedup_key is None,
            r.body@ == fr_received_body(from_user_json@, received_request_user_id@),
    {
        let mut body = String::from_str("{\"from_user\":");
        body.append(from_user_json);
        body.append(",\"user\":");
        let id = json_string_of(received_request_user_id);
        body.append(id.as_str());
        body.append("}");
        proof {
            assert(body@ =~= fr_received_body(from_user_json@, received_request_user_id@));
        }
        request(&self.config.exchange, &self.config.fr_received_key, body, None)
    }

    /// A free-form notification for one user.
    pub fn generic_message(
        &self,
        user_json: &str,
        title: &str,
        body: &str,
        icon: &Option<String>,
    ) -> (r: PublishRequest)
        ensures
            standard_envelope(r, self.config.exchange@, self.config.generic_key@),
            r.dedup_key is None,
            r.body@ == generic_body(title@, body@, view_opt(*icon), user_json@),
    {
        let mut out = String::from_str("{\"title\":");
        let t = json_string_of(title);
        out.append(t.as_str());
        out.append(",\"body\":");
        let b = json_string_of(body);
        out.append(b.as_str());
        match icon {
            Some(ic) => {
                out.append(",\"icon\":");
                let i = json_string_of(ic.as_str());
                out.append(i.as_str());
            },
            None => {},
        }
        out.append(",\"user\":");
        out.append(user_json);
        out.append("}");
        proof {
            assert(out@ =~= generic_body(title@, body@, view_opt(*icon), user_json@));
        }
        request(&self.config.exchange, &self.config.generic_key, out, None)
    }

    /// A message was sent in a channel: keeps the recipients that are not
    /// viewing it and frames the notification for those that remain. Returns
    /// nothing to send — a valid outcome, not an error — when there is no
    /// recipient or every one of them is watching the channel. The caller
    /// redacts the notification's text before encoding it; `presence[i]` is
    /// the store data for `recipients[i]`.
    pub fn message_sent(
        &self,
        recipients: &Vec<String>,
        presence: &Vec<UserPresence>,
        channel_id: &String,
        notification_json: &str,
    ) -> (r: Option<PublishRequest>)
        requires
            recipients@.len() == presence@.len(),
        ensures
            ({
                let kept = filter_seq(recipients@, presence@, channel_id@);
                &&& (r is None <==> kept.len() == 0)
                &&& (r matches Some(req) ==> standard_envelope(
                    req,
                    self.config.exchange@,
                    self.config.message_key@,
                ) && req.dedup_key is None && req.body@ == message_sent_body(
                    notification_json@,
                    kept.map_values(|s: String| s@),
                ))
            }),
    {
        if recipients.len() == 0 {
            return None;
        }
        let kept = filter_viewers(recipients, presence, channel_id);
        if kept.len() == 0 {
            return None;
        }
        let users = json_array_of_strings(&kept);
        let mut body = String::from_str("{\"notification\":");
        body.append(notification_json);
        body.append(",\"users\":");
        body.append(users.as_str());
        body.append("}");
        proof {
            assert(body@ =~= message_sent_body(
                notification_json@,
                filter_seq(recipients@, presence@, channel_id@).map_values(|s: String| s@),
            ));
        }
        Some(request(&self.config.exchange, &self.config.message_key, body, None))
    }

    /// Mentions across a server, one encoded notification per message.
    pub fn mass_mention_message_sent(
        &self,
        server_id: &str,
        notification_jsons: &Vec<String>,
    ) -> (r: PublishRequest)
        ensures
            standard_envelope(r, self.config.exchange@, self.config.mass_mention_key@),
            r.dedup_key is None,
            r.body@ == mass_mention_body(
                notification_jsons@.map_values(|s: String| s@),
                server_id@,
            ),
    {
        let arr = json_array_of_raw(notification_jsons);
        let mut body = String::from_str("{\"notifications\":");
        body.append(arr.as_str());
        body.append(",\"server_id\":");
        let sid = json_string_of(server_id);
        body.append(sid.as_str());
        body.append("}");
        proof {
            assert(body@ =~= mass_mention_body(
                notification_jsons@.map_values(|s: String| s@),
                server_id@,
            ));
        }
        request(&self.config.exchange, &self.config.mass_mention_key, body, None)
    }

    /// A user read a channel up to a message: published to the
    /// acknowledgement queue with a deduplication key under which the broker
    /// or consumer may collapse repeated acknowledgements of the same
    /// user-channel pair.
    pub fn ack_message(
        &self,
        user_id: &str,
        channel_id: &str,
        message_id: &str,
    ) -> (r: PublishRequest)
        ensures
            standard_envelope(r, self.config.exchange@, self.config.ack_queue@),
            r.body@ == ack_body(user_id@, channel_id@, message_id@),
            r.dedup_key matches Some(k) && k@ == dedup_key_spec(user_id@, channel_id@),
    {
        let mut body = String::from_str("{\"user_id\":");
        let u = json_string_of(user_id);
        body.append(u.as_str());
        body.append(",\"channel_id\":");
        let c = json_string_of(channel_id);
        body.append(c.as_str());
        body.append(",\"message_id\":");
        let m = json_string_of(message_id);
        body.append(m.as_str());
        body.append("}");
        let mut key = String::from_str("");
        key.append(user_id);
        key.append("-");
        key.append(channel_id);
        proof {
            assert(body@ =~= ack_body(user_id@, channel_id@, message_id@));
            reveal_strlit("");
            assert(key@ =~= dedup_key_spec(user_id@, channel_id@));
        }
        request(&self.config.exchange, &self.config.ack_queue, body, Some(key))
    }
}

/// What the broker transport reported for one publish attempt.
pub enum BrokerReport {
    /// The broker took the message.
    Delivered,
    /// Connection loss, a closed channel, or a broker rejection.
    TransportError(String),
}

/// A failure surfaced to the caller, which owns any retry policy.
pub enum PublishError {
    /// The transport's own description of what went wrong, verbatim.
    Transport(String),
}

/// Turns the transport's report into the caller's result: delivery is
/// success, and a transport failure is surfaced verbatim as an error — never
/// swallowed, never escalated beyond the call.
pub fn publish_result(report: BrokerReport) -> (r: Result<(), PublishError>)
    ensures
        report matches BrokerReport::Delivered ==> r is Ok,
        report matches BrokerReport::TransportError(m) ==> (r matches Err(
            PublishError::Transport(m2),
        ) && m2 == m),
{
    match report {
        BrokerReport::Delivered => Ok(()),
        BrokerReport::TransportError(m) => Err(PublishError::Transport(m)),
    }
}

} // verus!
