use base64::Engine;
use mailgate::codec::{build_envelope, decode_raw_message, encode_send_envelope,
    resolve_attachment, strip_trailing_eq};
use mailgate::error::AppError;
use mailgate::mime_raw::MimePartInfo;
use mailgate::model::{Attachment, SendMessageRequest};

fn send_request(attachments: Option<Vec<Attachment>>) -> SendMessageRequest {
    SendMessageRequest {
        to: vec!["a@x.com".to_string(), "b@y.com".to_string()],
        cc: None,
        subject: "Hi".to_string(),
        body: "<p>Yo</p>".to_string(),
        thread_id: None,
        attachments,
    }
}

#[test]
fn plain_envelope_headers_then_body() {
    let req = send_request(None);
    let envelope = build_envelope(&req);
    assert_eq!(
        envelope,
        "To: a@x.com, b@y.com\r\nSubject: Hi\r\nContent-Type: text/html; charset=utf-8\r\n\r\n<p>Yo</p>"
    );
}

#[test]
fn empty_attachment_list_builds_plain_envelope() {
    let req = send_request(Some(vec![]));
    let envelope = build_envelope(&req);
    assert!(!envelope.contains("multipart/mixed"));
}

#[test]
fn multipart_envelope_carries_each_attachment() {
    let atts = vec![
        Attachment {
            filename: "a.txt".to_string(),
            content: b"hello".to_vec(),
            mime_type: "text/plain".to_string(),
        },
        Attachment {
            filename: "b.bin".to_string(),
            content: vec![1, 2, 3],
            mime_type: "application/octet-stream".to_string(),
        },
    ];
    let req = send_request(Some(atts));
    let envelope = build_envelope(&req);
    assert!(envelope.starts_with("To: a@x.com, b@y.com\r\nSubject: Hi\r\nMIME-Version: 1.0\r\n"));
    assert!(envelope.contains("Content-Type: multipart/mixed; boundary=\"boundary_1234567890\""));
    assert!(envelope.contains("Content-Disposition: attachment; filename=\"a.txt\""));
    assert!(envelope.contains("Content-Disposition: attachment; filename=\"b.bin\""));
    assert!(envelope.contains("aGVsbG8="));
    assert!(envelope.contains("AQID"));
    assert!(envelope.ends_with("--boundary_1234567890--"));
}

#[test]
fn round_trip_no_attachments() {
    let req = send_request(None);
    let payload = encode_send_envelope(&req);
    let clean = decode_raw_message("id1", "snip", &payload).expect("decodes");
    assert_eq!(clean.id, "id1");
    assert_eq!(clean.snippet, "snip");
    assert_eq!(clean.subject.as_deref(), Some("Hi"));
    assert_eq!(clean.to.as_deref(), Some("a@x.com"));
    assert_eq!(clean.body_html.as_deref().map(str::trim_end), Some("<p>Yo</p>"));
    assert_eq!(clean.attachments.len(), 0);
}

#[test]
fn round_trip_one_attachment() {
    let atts = vec![Attachment {
        filename: "a.txt".to_string(),
        content: b"hello".to_vec(),
        mime_type: "text/plain".to_string(),
    }];
    let req = send_request(Some(atts));
    let payload = encode_send_envelope(&req);
    let clean = decode_raw_message("id2", "", &payload).expect("decodes");
    assert_eq!(clean.body_html.as_deref().map(str::trim_end), Some("<p>Yo</p>"));
    assert_eq!(clean.attachments.len(), 1);
    assert_eq!(clean.attachments[0].filename, "a.txt");
    assert_eq!(clean.attachments[0].content_type, "text/plain");
    assert_eq!(clean.attachments[0].size, 5);
}

#[test]
fn round_trip_two_attachments_byte_identical() {
    let content_a: Vec<u8> = (0u8..64).collect();
    let content_b = b"second attachment body".to_vec();
    let atts = vec![
        Attachment {
            filename: "first.bin".to_string(),
            content: content_a.clone(),
            mime_type: "application/octet-stream".to_string(),
        },
        Attachment {
            filename: "second.txt".to_string(),
            content: content_b.clone(),
            mime_type: "text/plain".to_string(),
        },
    ];
    let req = send_request(Some(atts));
    let payload = encode_send_envelope(&req);
    let clean = decode_raw_message("id3", "", &payload).expect("decodes");
    assert_eq!(clean.attachments.len(), 2);
    assert_eq!(clean.attachments[0].filename, "first.bin");
    assert_eq!(clean.attachments[0].size, content_a.len());
    assert_eq!(clean.attachments[1].filename, "second.txt");
    assert_eq!(clean.attachments[1].size, content_b.len());
}

#[test]
fn decode_tolerates_trailing_padding() {
    let req = send_request(None);
    let mut payload = encode_send_envelope(&req);
    payload.push_str("==");
    let clean = decode_raw_message("id4", "", &payload).expect("decodes despite padding");
    assert_eq!(clean.subject.as_deref(), Some("Hi"));
}

#[test]
fn strip_trailing_eq_removes_only_trailing_markers() {
    assert_eq!(strip_trailing_eq("abc=="), "abc");
    assert_eq!(strip_trailing_eq("a=bc="), "a=bc");
    assert_eq!(strip_trailing_eq("==="), "");
    assert_eq!(strip_trailing_eq(""), "");
}

#[test]
fn malformed_base64_is_an_envelope_failure() {
    let err = decode_raw_message("id5", "", "!!!not-base64!!!").unwrap_err();
    match err {
        AppError::Envelope { .. } => (),
        other => panic!("expected envelope failure, got {:?}", other),
    }
}

#[test]
fn attachment_name_falls_back_to_type_parameter_then_unnamed() {
    let explicit = MimePartInfo {
        attachment_name: Some("report.pdf".to_string()),
        type_name_param: Some("ignored".to_string()),
        main_type: Some("application".to_string()),
        sub_type: Some("pdf".to_string()),
        size: 10,
        content_id: None,
    };
    assert_eq!(resolve_attachment(explicit).filename, "report.pdf");

    let by_param = MimePartInfo {
        attachment_name: None,
        type_name_param: Some("data.csv".to_string()),
        main_type: Some("text".to_string()),
        sub_type: Some("csv".to_string()),
        size: 4,
        content_id: None,
    };
    assert_eq!(resolve_attachment(by_param).filename, "data.csv");

    let nameless = MimePartInfo {
        attachment_name: None,
        type_name_param: None,
        main_type: None,
        sub_type: None,
        size: 0,
        content_id: None,
    };
    let resolved = resolve_attachment(nameless);
    assert_eq!(resolved.filename, "unnamed");
    assert_eq!(resolved.content_type, "application/octet-stream");
}

#[test]
fn content_type_defaults_subtype_to_octet_stream() {
    let part = MimePartInfo {
        attachment_name: Some("x".to_string()),
        type_name_param: None,
        main_type: Some("image".to_string()),
        sub_type: None,
        size: 1,
        content_id: Some("cid-1".to_string()),
    };
    let resolved = resolve_attachment(part);
    assert_eq!(resolved.content_type, "image/octet-stream");
    assert_eq!(resolved.id.as_deref(), Some("cid-1"));
}

#[test]
fn transport_payload_is_urlsafe_base64_of_the_envelope() {
    let req = send_request(None);
    let envelope = build_envelope(&req);
    let payload = encode_send_envelope(&req);
    let decoded = base64::engine::general_purpose::URL_SAFE_NO_PAD
        .decode(&payload)
        .expect("payload is url-safe unpadded base64");
    assert_eq!(decoded, envelope.as_bytes());
}
