//! Spoiler redaction for notification text.
//!
//! A body that contains an opening spoiler marker (`[[`, or its escaped form
//! `\[\[`) and a closing marker (`]]` or `\]\]`) anywhere — not necessarily
//! paired — is replaced whole by a fixed placeholder. Anything else passes
//! through unchanged.

use vstd::prelude::*;
use crate::text::{contains_substring, has_substring};

verus! {

/// The fixed placeholder shown in place of a spoilered body.
pub open spec fn spoiler_placeholder() -> Seq<char> {
    "(스포일러)"@
}

/// An opening spoiler marker, plain or escaped, occurs in `s`.
pub open spec fn has_open_marker(s: Seq<char>) -> bool {
    has_substring(s, "[["@) || has_substring(s, "\\[\\["@)
}

/// A closing spoiler marker, plain or escaped, occurs in `s`.
pub open spec fn has_close_marker(s: Seq<char>) -> bool {
    has_substring(s, "]]"@) || has_substring(s, "\\]\\]"@)
}

/// What redaction produces: the placeholder when both markers occur,
/// the body itself otherwise.
pub open spec fn redact_spec(s: Seq<char>) -> Seq<char> {
    if has_open_marker(s) && has_close_marker(s) {
        spoiler_placeholder()
    } else {
        s
    }
}

/// Redacts a notification body under the whole-body spoiler rule.
pub fn redact_spoiler(body: &str) -> (r: String)
    ensures
        r@ == redact_spec(body@),
{
    let open = contains_substring(body, "[[") || contains_substring(body, "\\[\\[");
    let close = contains_substring(body, "]]") || contains_substring(body, "\\]\\]");
    if open && close {
        String::from_str("(스포일러)")
    } else {
        body.to_owned()
    }
}

/// Applies the redaction rule independently to a notification's summary body
/// and, when present, to the raw content of the underlying message.
pub fn redact_notification_text(body: &str, content: &Option<String>) -> (r: (String, Option<String>))
    ensures
        r.0@ == redact_spec(body@),
        match *content {
            Some(c) => r.1 matches Some(rc) && rc@ == redact_spec(c@),
            None => r.1 is None,
        },
{
    let redacted_body = redact_spoiler(body);
    match content {
        Some(c) => {
            let rc = redact_spoiler(c.as_str());
            (redacted_body, Some(rc))
        },
        None => (redacted_body, None),
    }
}

/// The placeholder itself carries no spoiler markers: its characters are
/// never `[`, `]` or `\`.
proof fn lemma_placeholder_has_no_markers()
    ensures
        !has_open_marker(spoiler_placeholder()),
        !has_close_marker(spoiler_placeholder()),
{
    reveal_strlit("(스포일러)");
    reveal_strlit("[[");
    reveal_strlit("\\[\\[");
    reveal_strlit("]]");
    reveal_strlit("\\]\\]");
    let p = spoiler_placeholder();
    assert forall|i: int| !crate::text::matches_at(p, "[["@, i) by {
        if crate::text::matches_at(p, "[["@, i) {
            assert(p.subrange(i, i + 2)[0] == p[i]);
            assert(p[i] == '[');
        }
    }
    assert forall|i: int| !crate::text::matches_at(p, "\\[\\["@, i) by {
        if crate::text::matches_at(p, "\\[\\["@, i) {
            assert(p.subrange(i, i + 4)[0] == p[i]);
            assert(p[i] == '\\');
        }
    }
    assert forall|i: int| !crate::text::matches_at(p, "]]"@, i) by {
        if crate::text::matches_at(p, "]]"@, i) {
            assert(p.subrange(i, i + 2)[0] == p[i]);
            assert(p[i] == ']');
        }
    }
    assert forall|i: int| !crate::text::matches_at(p, "\\]\\]"@, i) by {
        if crate::text::matches_at(p, "\\]\\]"@, i) {
            assert(p.subrange(i, i + 4)[0] == p[i]);
            assert(p[i] == '\\');
        }
    }
}

/// Redaction is idempotent: redacting an already-redacted body changes
/// nothing further.
pub proof fn lemma_redact_idempotent(s: Seq<char>)
    ensures
        redact_spec(redact_spec(s)) == redact_spec(s),
{
    if has_open_marker(s) && has_close_marker(s) {
        lemma_placeholder_has_no_markers();
    }
}

/// A body without a closing marker is left unmodified, whatever opening
/// markers it holds.
pub proof fn lemma_unclosed_marker_unmodified(s: Seq<char>)
    requires
        !has_close_marker(s),
    ensures
        redact_spec(s) == s,
{
}

} // verus!
