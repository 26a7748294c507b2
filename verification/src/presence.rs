//! Presence-aware recipient filtering, and the write-side protocol of the
//! presence store.
//!
//! The store itself is a volatile, TTL-bound key-value service reached over
//! the network by the surrounding driver. This module fixes the key shapes,
//! decides which store writes an activity signal requires, and — given the
//! channel sets the driver could read back — computes which recipients are
//! currently viewing a channel and must not be notified. A session that was
//! missing, expired or unreadable contributes no data, and so degrades to
//! "not viewing": an outage may over-notify, never silently drop.

use vstd::prelude::*;

verus! {

/// Seconds a session's presence record lives after its last "open" signal.
pub const PRESENCE_TTL_SECONDS: u64 = 300;

/// The set of channel identifiers one session reported open.
pub struct SessionChannels {
    pub channels: Vec<String>,
}

/// Everything the store yielded about one user: the channel sets of each of
/// the user's sessions that could be read. An unreachable store yields no
/// sessions at all.
pub struct UserPresence {
    pub sessions: Vec<SessionChannels>,
}

/// The session's channel set holds `channel`.
pub open spec fn session_has(s: SessionChannels, channel: Seq<char>) -> bool {
    exists|i: int| 0 <= i < s.channels@.len() && s.channels@[i]@ == channel
}

/// Some session of the user has `channel` open.
pub open spec fn viewing(p: UserPresence, channel: Seq<char>) -> bool {
    exists|i: int| 0 <= i < p.sessions@.len() && session_has(p.sessions@[i], channel)
}

/// The recipients that survive the filter, in their original order: those
/// whose presence data does not show `channel` open.
pub open spec fn filter_seq(
    recipients: Seq<String>,
    presence: Seq<UserPresence>,
    channel: Seq<char>,
) -> Seq<String>
    recommends
        recipients.len() == presence.len(),
    decreases recipients.len(),
{
    if recipients.len() == 0 {
        Seq::empty()
    } else {
        let rest = filter_seq(recipients.drop_last(), presence.drop_last(), channel);
        if viewing(presence.last(), channel) {
            rest
        } else {
            rest.push(recipients.last())
        }
    }
}

/// Some element of `s` reads `u`.
pub open spec fn contains_id(s: Seq<String>, u: Seq<char>) -> bool {
    exists|j: int| 0 <= j < s.len() && s[j]@ == u
}

fn session_contains(s: &SessionChannels, channel_id: &String) -> (b: bool)
    ensures
        b == session_has(*s, channel_id@),
{
    let mut i: usize = 0;
    while i < s.channels.len()
        invariant
            i <= s.channels@.len(),
            forall|j: int| 0 <= j < i ==> s.channels@[j]@ != channel_id@,
        decreases s.channels@.len() - i,
    {
        if s.channels[i].eq(channel_id) {
            return true;
        }
        i = i + 1;
    }
    false
}

/// Whether the presence data shows the user viewing `channel_id` in any
/// session.
pub fn is_viewing(p: &UserPresence, channel_id: &String) -> (b: bool)
    ensures
        b == viewing(*p, channel_id@),
{
    let mut i: usize = 0;
    while i < p.sessions.len()
        invariant
            i <= p.sessions@.len(),
            forall|j: int| 0 <= j < i ==> !session_has(p.sessions@[j], channel_id@),
        decreases p.sessions@.len() - i,
    {
        if session_contains(&p.sessions[i], channel_id) {
            return true;
        }
        i = i + 1;
    }
    false
}

/// Drops from `recipients` every user whose presence data shows `channel_id`
/// open; everyone else is kept, in order. `presence[i]` is what the store
/// yielded for `recipients[i]`.
pub fn filter_viewers(
    recipients: &Vec<String>,
    presence: &Vec<UserPresence>,
    channel_id: &String,
) -> (r: Vec<String>)
    requires
        recipients@.len() == presence@.len(),
    ensures
        r@ == filter_seq(recipients@, presence@, channel_id@),
{
    let mut r: Vec<String> = Vec::new();
    let mut i: usize = 0;
    while i < recipients.len()
        invariant
            recipients@.len() == presence@.len(),
            i <= recipients@.len(),
            r@ == filter_seq(recipients@.take(i as int), presence@.take(i as int), channel_id@),
        decreases recipients@.len() - i,
    {
        if !is_viewing(&presence[i], channel_id) {
            r.push(recipients[i].clone());
        }
        proof {
            assert(recipients@.take(i + 1).drop_last() =~= recipients@.take(i as int));
            assert(presence@.take(i + 1).drop_last() =~= presence@.take(i as int));
            assert(recipients@.take(i + 1).last() == recipients@[i as int]);
            assert(presence@.take(i + 1).last() == presence@[i as int]);
        }
        i = i + 1;
    }
    proof {
        assert(recipients@.take(recipients@.len() as int) =~= recipients@);
        assert(presence@.take(presence@.len() as int) =~= presence@);
    }
    r
}

/// Every element of the filtered sequence is one of the recipients.
proof fn lemma_filter_elements(recipients: Seq<String>, presence: Seq<UserPresence>, channel: Seq<char>)
    requires
        recipients.len() == presence.len(),
    ensures
        forall|j: int| 0 <= j < filter_seq(recipients, presence, channel).len()
            ==> exists|i: int|
                0 <= i < recipients.len() && recipients[i] == #[trigger] filter_seq(
                    recipients,
                    presence,
                    channel,
                )[j],
    decreases recipients.len(),
{
    if recipients.len() > 0 {
        lemma_filter_elements(recipients.drop_last(), presence.drop_last(), channel);
        assert forall|j: int|
            0 <= j < filter_seq(recipients, presence, channel).len() implies exists|i: int|
            0 <= i < recipients.len() && recipients[i] == #[trigger] filter_seq(
                recipients,
                presence,
                channel,
            )[j] by {
            let f = filter_seq(recipients, presence, channel);
            let rest = filter_seq(recipients.drop_last(), presence.drop_last(), channel);
            if j < rest.len() {
                assert(f[j] == rest[j]);
                let i = choose|i: int|
                    0 <= i < recipients.drop_last().len() && recipients.drop_last()[i] == rest[j];
                assert(recipients[i] == rest[j]);
            } else {
                assert(f[j] == recipients.last());
            }
        }
    }
}

/// The filter keeps exactly the recipients whose presence data does not show
/// the channel open: anyone fully covered by an active record for the target
/// channel is excluded, everyone else is included.
pub proof fn lemma_filter_excludes_exactly_viewers(
    recipients: Seq<String>,
    presence: Seq<UserPresence>,
    channel: Seq<char>,
)
    requires
        recipients.len() == presence.len(),
        forall|i: int, j: int| 0 <= i < j < recipients.len() ==> recipients[i]@ != recipients[j]@,
    ensures
        forall|i: int| 0 <= i < recipients.len()
            ==> (contains_id(filter_seq(recipients, presence, channel), #[trigger] recipients[i]@)
                <==> !viewing(presence[i], channel)),
    decreases recipients.len(),
{
    if recipients.len() > 0 {
        let n = recipients.len() as int;
        let f = filter_seq(recipients, presence, channel);
        let rest = filter_seq(recipients.drop_last(), presence.drop_last(), channel);
        lemma_filter_excludes_exactly_viewers(recipients.drop_last(), presence.drop_last(), channel);
        lemma_filter_elements(recipients.drop_last(), presence.drop_last(), channel);
        assert forall|i: int| 0 <= i < n implies (contains_id(f, #[trigger] recipients[i]@)
            <==> !viewing(presence[i], channel)) by {
            if i < n - 1 {
                assert(recipients.drop_last()[i] == recipients[i]);
                assert(presence.drop_last()[i] == presence[i]);
                // the last recipient's id never equals this one's
                assert(recipients[i]@ != recipients[n - 1]@);
                if contains_id(rest, recipients[i]@) {
                    let j = choose|j: int| 0 <= j < rest.len() && rest[j]@ == recipients[i]@;
                    if viewing(presence.last(), channel) {
                        assert(f[j]@ == recipients[i]@);
                    } else {
                        assert(f[j]@ == recipients[i]@);
                    }
                    assert(contains_id(f, recipients[i]@));
                } else if contains_id(f, recipients[i]@) {
                    let j = choose|j: int| 0 <= j < f.len() && f[j]@ == recipients[i]@;
                    if j < rest.len() {
                        assert(rest[j]@ == recipients[i]@);
                        assert(false);
                    } else {
                        assert(f[j] == recipients.last());
                        assert(false);
                    }
                }
            } else {
                // i is the last recipient
                if viewing(presence[i], channel) {
                    assert(f == rest);
                    if contains_id(f, recipients[i]@) {
                        let j = choose|j: int| 0 <= j < rest.len() && rest[j]@ == recipients[i]@;
                        let k = choose|k: int|
                            0 <= k < recipients.drop_last().len() && recipients.drop_last()[k]
                                == rest[j];
                        assert(recipients[k]@ == recipients[i]@);
                        assert(false);
                    }
                } else {
                    assert(f[f.len() - 1] == recipients.last());
                    assert(contains_id(f, recipients[i]@));
                }
            }
        }
    }
}

/// With no presence data at all — the store unreachable, every record
/// missing or expired — the filter returns the recipients unchanged.
pub proof fn lemma_filter_fail_open(
    recipients: Seq<String>,
    presence: Seq<UserPresence>,
    channel: Seq<char>,
)
    requires
        recipients.len() == presence.len(),
        forall|i: int| 0 <= i < presence.len() ==> #[trigger] presence[i].sessions@.len() == 0,
    ensures
        filter_seq(recipients, presence, channel) == recipients,
    decreases recipients.len(),
{
    if recipients.len() == 0 {
        assert(filter_seq(recipients, presence, channel) =~= recipients);
    } else {
        lemma_filter_fail_open(recipients.drop_last(), presence.drop_last(), channel);
        assert(presence.last() == presence[recipients.len() - 1]);
        assert(!viewing(presence.last(), channel));
        assert(filter_seq(recipients, presence, channel) =~= recipients);
    }
}

/// The store key under which a session's open channels are held.
pub open spec fn session_key_spec(user_id: Seq<char>, session_id: Seq<char>) -> Seq<char> {
    "open_channels:"@ + user_id + ":"@ + session_id
}

/// The key pattern matching every session of a user.
pub open spec fn session_pattern_spec(user_id: Seq<char>) -> Seq<char> {
    "open_channels:"@ + user_id + ":*"@
}

/// Builds the store key for one session of one user.
pub fn session_key(user_id: &str, session_id: &str) -> (r: String)
    ensures
        r@ == session_key_spec(user_id@, session_id@),
{
    let mut r = String::from_str("open_channels:");
    r.append(user_id);
    r.append(":");
    r.append(session_id);
    proof {
        assert(r@ =~= session_key_spec(user_id@, session_id@));
    }
    r
}

/// Builds the key pattern enumerating every session of a user.
pub fn session_pattern(user_id: &str) -> (r: String)
    ensures
        r@ == session_pattern_spec(user_id@),
{
    let mut r = String::from_str("open_channels:");
    r.append(user_id);
    r.append(":*");
    proof {
        assert(r@ =~= session_pattern_spec(user_id@));
    }
    r
}

} // verus!
