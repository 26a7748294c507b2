//! Registering a web-push subscription on a session. Persisting the session
//! belongs to the caller's session store; this module decides what is
//! stored and whether duplicates must be purged first.

use vstd::prelude::*;

verus! {

/// A client's push subscription as its session stores it.
pub struct WebPushSubscription {
    pub endpoint: String,
    pub p256dh: String,
    pub auth: String,
}

/// What storing a new subscription requires of the caller: for a
/// firebase-cloud-messaging subscription, first remove the same token from
/// the user's other sessions (a failure there is logged and swallowed, never
/// surfaced), then store the subscription on the session, replacing any
/// previous one.
pub struct SubscribePlan {
    pub purge_fcm_duplicates: bool,
    pub subscription: WebPushSubscription,
}

/// Decides how a new subscription is stored: the subscription itself is
/// kept unchanged, and duplicates are purged exactly for the
/// firebase-cloud-messaging endpoint.
pub fn subscribe(data: WebPushSubscription) -> (p: SubscribePlan)
    ensures
        p.purge_fcm_duplicates == (data.endpoint@ == "fcm"@),
        p.subscription == data,
{
    let fcm = String::from_str("fcm");
    let purge = data.endpoint.eq(&fcm);
    SubscribePlan { purge_fcm_duplicates: purge, subscription: data }
}

} // verus!
