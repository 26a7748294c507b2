use pushd_core::subscribe::{subscribe, WebPushSubscription};

#[test]
fn fcm_subscriptions_purge_duplicates_first() {
    let plan = subscribe(WebPushSubscription {
        endpoint: String::from("fcm"),
        p256dh: String::from(""),
        auth: String::from("token-1"),
    });
    assert!(plan.purge_fcm_duplicates);
    assert_eq!(plan.subscription.endpoint, "fcm");
    assert_eq!(plan.subscription.auth, "token-1");
}

#[test]
fn web_push_subscriptions_are_stored_as_given() {
    let plan = subscribe(WebPushSubscription {
        endpoint: String::from("https://push.example/ep"),
        p256dh: String::from("key"),
        auth: String::from("secret"),
    });
    assert!(!plan.purge_fcm_duplicates);
    assert_eq!(plan.subscription.endpoint, "https://push.example/ep");
    assert_eq!(plan.subscription.p256dh, "key");
    assert_eq!(plan.subscription.auth, "secret");
}
