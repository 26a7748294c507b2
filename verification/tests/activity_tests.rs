use pushd_core::activity::{
    update_activity, ActivityError, ChannelActivityRequest, ChannelActivityType, PresenceOp,
};

#[test]
fn bots_are_rejected() {
    let req = ChannelActivityRequest { activity_type: ChannelActivityType::Open };
    let r = update_activity(true, "u1", "s1", &String::from("c1"), &req);
    assert!(matches!(r, Err(ActivityError::IsBot)));
}

#[test]
fn open_adds_the_channel_and_resets_the_ttl() {
    let req = ChannelActivityRequest { activity_type: ChannelActivityType::Open };
    let w = update_activity(false, "u1", "s1", &String::from("c1"), &req).unwrap();
    assert_eq!(w.key, "open_channels:u1:s1");
    match w.op {
        PresenceOp::Open { channel, ttl_seconds } => {
            assert_eq!(channel, "c1");
            assert_eq!(ttl_seconds, 300);
        }
        PresenceOp::Close { .. } => panic!("an open signal must add the channel"),
    }
}

#[test]
fn close_only_removes_the_channel() {
    let req = ChannelActivityRequest { activity_type: ChannelActivityType::Close };
    let w = update_activity(false, "u2", "s9", &String::from("c3"), &req).unwrap();
    assert_eq!(w.key, "open_channels:u2:s9");
    match w.op {
        PresenceOp::Close { channel } => assert_eq!(channel, "c3"),
        PresenceOp::Open { .. } => panic!("a close signal must not reset the record"),
    }
}
