//! The attachment listing of a channel: shaping the paginated message query
//! and flattening the fetched messages' attachments, each tagged with the
//! message that carried it. Fetching itself is the database collaborator's;
//! permission checks are the caller's.

use vstd::prelude::*;

verus! {

/// What a caller may narrow an attachment listing by.
pub struct AttachmentQueryOptions {
    pub limit: Option<i64>,
    pub before: Option<String>,
    pub after: Option<String>,
}

/// A message query: restricted to one channel and to messages carrying
/// attachments, paginated by message identifier, newest first.
pub struct AttachmentQuery {
    pub channel: String,
    pub has_attachments: bool,
    pub before: Option<String>,
    pub after: Option<String>,
    pub latest_first: bool,
    pub limit: Option<i64>,
}

/// One uploaded file, tagged with the message that carried it.
pub struct Attachment {
    pub id: String,
    pub message_id: Option<String>,
}

/// A fetched message: its identifier and the attachments it carried, if
/// any.
pub struct MessageRecord {
    pub id: String,
    pub attachments: Option<Vec<Attachment>>,
}

/// Shapes the message query behind an attachment listing.
pub fn query(channel_id: &String, options: AttachmentQueryOptions) -> (q: AttachmentQuery)
    ensures
        q.channel@ == channel_id@,
        q.has_attachments,
        q.before == options.before,
        q.after == options.after,
        q.latest_first,
        q.limit == options.limit,
{
    AttachmentQuery {
        channel: channel_id.clone(),
        has_attachments: true,
        before: options.before,
        after: options.after,
        latest_first: true,
        limit: options.limit,
    }
}

/// A message's attachments, each tagged with the message's identifier.
pub open spec fn tagged(m: MessageRecord) -> Seq<Attachment> {
    match m.attachments {
        Some(files) => files@.map_values(
            |f: Attachment| Attachment { id: f.id, message_id: Some(m.id) },
        ),
        None => Seq::empty(),
    }
}

/// Every attachment of every message, in message order, tagged.
pub open spec fn flatten_spec(messages: Seq<MessageRecord>) -> Seq<Attachment>
    decreases messages.len(),
{
    if messages.len() == 0 {
        Seq::empty()
    } else {
        flatten_spec(messages.drop_last()) + tagged(messages.last())
    }
}

/// Flattens the attachments out of the fetched messages, setting on each
/// the identifier of the message that carried it.
pub fn collect_attachments(messages: &Vec<MessageRecord>) -> (r: Vec<Attachment>)
    ensures
        r@ == flatten_spec(messages@),
{
    let mut r: Vec<Attachment> = Vec::new();
    let mut i: usize = 0;
    while i < messages.len()
        invariant
            i <= messages@.len(),
            r@ == flatten_spec(messages@.take(i as int)),
        decreases messages@.len() - i,
    {
        let m = &messages[i];
        match &m.attachments {
            Some(files) => {
                let mut j: usize = 0;
                while j < files.len()
                    invariant
                        i < messages@.len(),
                        j <= files@.len(),
                        *m == messages@[i as int],
                        m.attachments matches Some(fs) && fs@ == files@,
                        r@ == flatten_spec(messages@.take(i as int)) + tagged(
                            messages@[i as int],
                        ).take(j as int),
                    decreases files@.len() - j,
                {
                    r.push(Attachment {
                        id: files[j].id.clone(),
                        message_id: Some(m.id.clone()),
                    });
                    proof {
                        let t = tagged(messages@[i as int]);
                        assert(t[j as int] == Attachment {
                            id: files@[j as int].id,
                            message_id: Some(messages@[i as int].id),
                        });
                        assert(t.take(j + 1) =~= t.take(j as int).push(t[j as int]));
                        assert(r@ =~= flatten_spec(messages@.take(i as int)) + t.take(j + 1));
                    }
                    j = j + 1;
                }
                proof {
                    assert(tagged(messages@[i as int]).take(files@.len() as int) =~= tagged(
                        messages@[i as int],
                    ));
                }
            },
            None => {
                proof {
                    assert(tagged(messages@[i as int]) =~= Seq::<Attachment>::empty());
                    assert(r@ =~= flatten_spec(messages@.take(i as int)) + tagged(
                        messages@[i as int],
                    ));
                }
            },
        }
        proof {
            assert(messages@.take(i + 1).drop_last() =~= messages@.take(i as int));
            assert(messages@.take(i + 1).last() == messages@[i as int]);
        }
        i = i + 1;
    }
    proof {
        assert(messages@.take(messages@.len() as int) =~= messages@);
    }
    r
}

} // verus!
