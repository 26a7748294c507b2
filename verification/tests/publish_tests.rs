use pushd_core::presence::{SessionChannels, UserPresence};
use pushd_core::publish::{BrokerReport, PublishError, Publisher, PushConfig, publish_result};

fn config() -> PushConfig {
    PushConfig {
        exchange: String::from("revolt.notifications"),
        fr_accepted_key: String::from("notifications.fr.accepted"),
        fr_received_key: String::from("notifications.fr.received"),
        generic_key: String::from("notifications.generic"),
        message_key: String::from("notifications.message"),
        mass_mention_key: String::from("notifications.mass_mention"),
        ack_queue: String::from("notifications.ack"),
    }
}

fn viewing(channel: &str) -> UserPresence {
    UserPresence {
        sessions: vec![SessionChannels { channels: vec![channel.to_string()] }],
    }
}

fn absent() -> UserPresence {
    UserPresence { sessions: vec![] }
}

#[test]
fn friend_request_accepted_frame() {
    let p = Publisher::new(config());
    let r = p.friend_request_accepted("{\"_id\":\"ua\"}", "ub");
    assert_eq!(r.body, "{\"accepted_user\":{\"_id\":\"ua\"},\"user\":\"ub\"}");
    assert_eq!(r.exchange, "revolt.notifications");
    assert_eq!(r.routing_key, "notifications.fr.accepted");
    assert_eq!(r.content_type, "application/json");
    assert!(r.persistent);
    assert!(r.dedup_key.is_none());
}

#[test]
fn friend_request_received_frame() {
    let p = Publisher::new(config());
    let r = p.friend_request_received("{\"_id\":\"uf\"}", "ut");
    assert_eq!(r.body, "{\"from_user\":{\"_id\":\"uf\"},\"user\":\"ut\"}");
    assert_eq!(r.routing_key, "notifications.fr.received");
}

#[test]
fn generic_message_with_icon() {
    let p = Publisher::new(config());
    let r = p.generic_message(
        "{\"_id\":\"u1\"}",
        "Hi",
        "body text",
        &Some(String::from("https://example/icon.png")),
    );
    assert_eq!(
        r.body,
        "{\"title\":\"Hi\",\"body\":\"body text\",\"icon\":\"https://example/icon.png\",\"user\":{\"_id\":\"u1\"}}"
    );
    assert_eq!(r.routing_key, "notifications.generic");
}

#[test]
fn generic_message_without_icon_omits_the_field() {
    let p = Publisher::new(config());
    let r = p.generic_message("{\"_id\":\"u1\"}", "Hi", "b", &None);
    assert_eq!(r.body, "{\"title\":\"Hi\",\"body\":\"b\",\"user\":{\"_id\":\"u1\"}}");
}

#[test]
fn message_sent_with_empty_recipients_is_a_no_op() {
    let p = Publisher::new(config());
    let r = p.message_sent(&vec![], &vec![], &String::from("c1"), "{}");
    assert!(r.is_none());
}

#[test]
fn message_sent_with_every_recipient_viewing_is_a_no_op() {
    let p = Publisher::new(config());
    let recipients = vec![String::from("u1"), String::from("u2")];
    let presence = vec![viewing("c1"), viewing("c1")];
    let r = p.message_sent(&recipients, &presence, &String::from("c1"), "{}");
    assert!(r.is_none());
}

#[test]
fn message_sent_keeps_only_non_viewers() {
    let p = Publisher::new(config());
    let recipients = vec![String::from("u1"), String::from("u2"), String::from("u3")];
    let presence = vec![absent(), viewing("c9"), absent()];
    let r = p
        .message_sent(&recipients, &presence, &String::from("c9"), "{\"body\":\"hi\"}")
        .expect("someone is not viewing");
    assert_eq!(r.body, "{\"notification\":{\"body\":\"hi\"},\"users\":[\"u1\",\"u3\"]}");
    assert_eq!(r.routing_key, "notifications.message");
    assert!(r.dedup_key.is_none());

    // the users field is the filtered recipient set, order aside
    let parsed: serde_json::Value = serde_json::from_str(&r.body).unwrap();
    let mut users: Vec<String> = parsed["users"]
        .as_array()
        .unwrap()
        .iter()
        .map(|v| v.as_str().unwrap().to_string())
        .collect();
    users.sort();
    assert_eq!(users, vec!["u1".to_string(), "u3".to_string()]);
}

#[test]
fn message_sent_with_nobody_viewing_keeps_everyone() {
    let p = Publisher::new(config());
    let recipients = vec![String::from("u1"), String::from("u2")];
    let presence = vec![absent(), absent()];
    let r = p.message_sent(&recipients, &presence, &String::from("c1"), "{}").unwrap();
    assert_eq!(r.body, "{\"notification\":{},\"users\":[\"u1\",\"u2\"]}");
}

#[test]
fn mass_mention_frame() {
    let p = Publisher::new(config());
    let r = p.mass_mention_message_sent(
        "srv",
        &vec![String::from("{\"a\":1}"), String::from("{\"b\":2}")],
    );
    assert_eq!(
        r.body,
        "{\"notifications\":[{\"a\":1},{\"b\":2}],\"server_id\":\"srv\"}"
    );
    assert_eq!(r.routing_key, "notifications.mass_mention");
}

#[test]
fn mass_mention_with_no_notifications_still_frames() {
    let p = Publisher::new(config());
    let r = p.mass_mention_message_sent("srv", &vec![]);
    assert_eq!(r.body, "{\"notifications\":[],\"server_id\":\"srv\"}");
}

#[test]
fn ack_frame_and_dedup_key() {
    let p = Publisher::new(config());
    let r = p.ack_message("u1", "c1", "m1");
    assert_eq!(r.body, "{\"user_id\":\"u1\",\"channel_id\":\"c1\",\"message_id\":\"m1\"}");
    assert_eq!(r.routing_key, "notifications.ack");
    assert_eq!(r.dedup_key.as_deref(), Some("u1-c1"));
}

#[test]
fn transport_failure_is_surfaced_verbatim() {
    let r = publish_result(BrokerReport::TransportError(String::from("connection reset")));
    match r {
        Err(PublishError::Transport(m)) => assert_eq!(m, "connection reset"),
        Ok(()) => panic!("a transport error must surface"),
    }
}

#[test]
fn delivery_is_success() {
    assert!(publish_result(BrokerReport::Delivered).is_ok());
}
