use mailgate::model::{Attachment, BatchModifyRequest, ListParams, SendMessageRequest};
use mailgate::outlook::{build_outlook_list_url, build_outlook_send_payload, folder_to_label,
    outlook_body_preference, outlook_detail_message, outlook_folders_url, outlook_message_url,
    outlook_move_url, outlook_send_url, plan_moves, summarize_graph_message, GraphDetail,
    GraphFolder, GraphMessage};

fn params(q: Option<&str>, labels: Option<&str>, max: Option<u32>, page: Option<u32>)
    -> ListParams {
    ListParams {
        label_ids: labels.map(str::to_string),
        max_results: max,
        q: q.map(str::to_string),
        page_token: None,
        page_number: page,
        collapse_threads: None,
    }
}

const SELECT: &str =
    "$select=id,subject,from,receivedDateTime,isRead,hasAttachments,bodyPreview,conversationId";

#[test]
fn trash_page_three_builds_skip_ten_top_five() {
    let url = build_outlook_list_url(&params(None, Some("TRASH"), Some(5), Some(3)));
    assert_eq!(
        url,
        format!(
            "https://graph.microsoft.com/v1.0/me/mailFolders/deleteditems/messages?{}&$top=5&$skip=10",
            SELECT
        )
    );
}

#[test]
fn well_known_labels_map_to_fixed_folders() {
    for (label, folder) in [
        ("INBOX", "inbox"),
        ("SENT", "sentitems"),
        ("DRAFT", "drafts"),
        ("TRASH", "deleteditems"),
    ] {
        let url = build_outlook_list_url(&params(None, Some(label), None, None));
        assert!(url.starts_with(&format!(
            "https://graph.microsoft.com/v1.0/me/mailFolders/{}/messages?",
            folder
        )));
    }
}

#[test]
fn custom_labels_pass_through_as_folder_ids() {
    let url = build_outlook_list_url(&params(None, Some("custom-folder-9"), None, None));
    assert!(url.starts_with(
        "https://graph.microsoft.com/v1.0/me/mailFolders/custom-folder-9/messages?"
    ));
}

#[test]
fn no_label_lists_all_messages_with_default_page_size() {
    let url = build_outlook_list_url(&params(None, None, None, None));
    assert_eq!(
        url,
        format!("https://graph.microsoft.com/v1.0/me/messages?{}&$top=10", SELECT)
    );
}

#[test]
fn first_page_has_no_skip_and_search_is_quoted() {
    let url = build_outlook_list_url(&params(Some("report q1"), None, Some(5), Some(1)));
    assert_eq!(
        url,
        format!(
            "https://graph.microsoft.com/v1.0/me/messages?{}&$top=5&$search=\"report q1\"",
            SELECT
        )
    );
}

#[test]
fn fixed_urls_and_preference_header() {
    assert_eq!(outlook_message_url("m7"), "https://graph.microsoft.com/v1.0/me/messages/m7");
    assert_eq!(outlook_send_url(), "https://graph.microsoft.com/v1.0/me/sendMail");
    assert_eq!(outlook_folders_url(), "https://graph.microsoft.com/v1.0/me/mailFolders?$top=99");
    assert_eq!(
        outlook_move_url("m7"),
        "https://graph.microsoft.com/v1.0/me/messages/m7/move"
    );
    assert_eq!(outlook_body_preference(), "outlook.body-content-type=\"text\"");
}

#[test]
fn graph_summary_resolves_sender_and_flags() {
    let m = GraphMessage {
        id: Some("m1".to_string()),
        conversation_id: Some("c1".to_string()),
        body_preview: Some("preview".to_string()),
        subject: Some("s".to_string()),
        from_address: None,
        from_name: Some("Only Name".to_string()),
        received: Some("2024-02-02T00:00:00Z".to_string()),
        is_read: Some(false),
        has_attachments: None,
    };
    let summary = summarize_graph_message(&m);
    assert_eq!(summary.id, "m1");
    assert_eq!(summary.thread_id, "c1");
    assert_eq!(summary.from.as_deref(), Some("Only Name"));
    assert!(summary.unread);
    assert!(!summary.has_attachments);
}

#[test]
fn graph_detail_joins_recipients() {
    let d = GraphDetail {
        subject: Some("s".to_string()),
        from_address: Some("from@x.y".to_string()),
        from_name: Some("ignored".to_string()),
        received: Some("2024-02-02T00:00:00Z".to_string()),
        body_preview: None,
        to_addresses: Some(vec!["a@x.y".to_string(), "b@x.y".to_string()]),
        body_content: Some("plain body".to_string()),
    };
    let clean = outlook_detail_message("m2", &d);
    assert_eq!(clean.id, "m2");
    assert_eq!(clean.from.as_deref(), Some("from@x.y"));
    assert_eq!(clean.to.as_deref(), Some("a@x.y, b@x.y"));
    assert_eq!(clean.snippet, "");
    assert_eq!(clean.body_text.as_deref(), Some("plain body"));
    assert_eq!(clean.body_html, None);
    assert!(clean.attachments.is_empty());
}

#[test]
fn send_payload_encodes_attachments() {
    let req = SendMessageRequest {
        to: vec!["a@x.y".to_string()],
        cc: None,
        subject: "subject".to_string(),
        body: "<b>html</b>".to_string(),
        thread_id: None,
        attachments: Some(vec![Attachment {
            filename: "f.bin".to_string(),
            content: vec![1, 2, 3],
            mime_type: "application/octet-stream".to_string(),
        }]),
    };
    let payload = build_outlook_send_payload(&req);
    assert_eq!(payload.subject, "subject");
    assert_eq!(payload.body_html, "<b>html</b>");
    assert_eq!(payload.to, vec!["a@x.y".to_string()]);
    assert!(payload.cc.is_empty());
    assert!(payload.save_to_sent);
    assert_eq!(payload.attachments.len(), 1);
    assert_eq!(payload.attachments[0].name, "f.bin");
    assert_eq!(payload.attachments[0].content_bytes, "AQID");
}

#[test]
fn batch_modify_without_add_list_plans_nothing() {
    let req = BatchModifyRequest {
        ids: vec!["m1".to_string(), "m2".to_string()],
        add_label_ids: None,
        remove_label_ids: Some(vec!["x".to_string()]),
    };
    assert!(plan_moves(&req).is_empty());
    let empty_add = BatchModifyRequest {
        ids: vec!["m1".to_string()],
        add_label_ids: Some(vec![]),
        remove_label_ids: None,
    };
    assert!(plan_moves(&empty_add).is_empty());
}

#[test]
fn batch_modify_honors_only_the_first_destination() {
    let req = BatchModifyRequest {
        ids: vec!["m1".to_string(), "m2".to_string()],
        add_label_ids: Some(vec!["dest-1".to_string(), "dest-2".to_string()]),
        remove_label_ids: None,
    };
    let moves = plan_moves(&req);
    assert_eq!(moves.len(), 2);
    assert_eq!(moves[0].message_id, "m1");
    assert_eq!(moves[0].destination_id, "dest-1");
    assert_eq!(moves[1].message_id, "m2");
    assert_eq!(moves[1].destination_id, "dest-1");
}

#[test]
fn folders_become_user_labels() {
    let label = folder_to_label(&GraphFolder {
        id: Some("f1".to_string()),
        display_name: Some("Archive".to_string()),
    });
    assert_eq!(label.id, "f1");
    assert_eq!(label.name, "Archive");
    assert_eq!(label.label_type.as_deref(), Some("user"));
}
