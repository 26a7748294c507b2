use pushd_core::attachments::{
    collect_attachments, query, Attachment, AttachmentQuery, AttachmentQueryOptions,
    MessageRecord,
};

#[test]
fn query_is_restricted_to_attachments_of_the_channel() {
    let q: AttachmentQuery = query(
        &String::from("c1"),
        AttachmentQueryOptions {
            limit: Some(50),
            before: Some(String::from("m9")),
            after: None,
        },
    );
    assert_eq!(q.channel, "c1");
    assert!(q.has_attachments);
    assert!(q.latest_first);
    assert_eq!(q.before.as_deref(), Some("m9"));
    assert!(q.after.is_none());
    assert_eq!(q.limit, Some(50));
}

#[test]
fn attachments_are_flattened_and_tagged_with_their_message() {
    let messages = vec![
        MessageRecord {
            id: String::from("m1"),
            attachments: Some(vec![
                Attachment { id: String::from("f1"), message_id: None },
                Attachment { id: String::from("f2"), message_id: None },
            ]),
        },
        MessageRecord { id: String::from("m2"), attachments: None },
        MessageRecord { id: String::from("m3"), attachments: Some(vec![]) },
        MessageRecord {
            id: String::from("m4"),
            attachments: Some(vec![Attachment { id: String::from("f3"), message_id: None }]),
        },
    ];
    let flat = collect_attachments(&messages);
    assert_eq!(flat.len(), 3);
    assert_eq!(flat[0].id, "f1");
    assert_eq!(flat[0].message_id.as_deref(), Some("m1"));
    assert_eq!(flat[1].id, "f2");
    assert_eq!(flat[1].message_id.as_deref(), Some("m1"));
    assert_eq!(flat[2].id, "f3");
    assert_eq!(flat[2].message_id.as_deref(), Some("m4"));
}

#[test]
fn no_messages_mean_no_attachments() {
    assert!(collect_attachments(&vec![]).is_empty());
}
