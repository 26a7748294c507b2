//! Push-notification fanout core: decides who should be notified of an
//! application event, builds the event-specific wire payload, and describes
//! the broker publish that delivers it.
//!
//! All network work (the presence store, the message broker) is left to the
//! surrounding, unverified driver; this crate holds the decisions and the
//! payload framing, with contracts over the exact strings produced.

pub mod text;
pub mod redact;
pub mod json;
pub mod presence;
pub mod activity;
pub mod publish;
pub mod attachments;
pub mod subscribe;
