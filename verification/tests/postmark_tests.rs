use mailgate::error::AppError;
use mailgate::model::{Attachment, SendMessageRequest};
use mailgate::postmark::{build_postmark_email, postmark_auth_token, postmark_from_address,
    postmark_get_message_error, postmark_list_response, postmark_profile, postmark_send_url};

#[test]
fn from_address_lowercases_and_strips_spaces() {
    assert_eq!(postmark_from_address("Dray Insight"), "drayinsight@drayinsight.com");
    assert_eq!(postmark_from_address("ACME"), "acme@drayinsight.com");
    assert_eq!(postmark_from_address("a b  c"), "abc@drayinsight.com");
}

#[test]
fn listing_is_an_empty_success_by_policy() {
    let resp = postmark_list_response();
    assert!(resp.messages.is_empty());
    assert_eq!(resp.result_size_estimate, Some(0));
    assert_eq!(resp.next_page_token, None);
    assert!(resp.warning.is_none());
}

#[test]
fn fetching_a_message_is_an_explicit_unsupported_failure() {
    match postmark_get_message_error() {
        AppError::BadRequest { message } => {
            assert_eq!(message, "Message viewing not supported for Postmark");
        },
        other => panic!("expected a bad-request failure, got {:?}", other),
    }
}

#[test]
fn server_token_backs_an_empty_caller_token() {
    assert_eq!(postmark_auth_token("", "server-token"), "server-token");
    assert_eq!(postmark_auth_token("caller-token", "server-token"), "caller-token");
}

#[test]
fn send_payload_joins_recipients_and_encodes_attachments() {
    let req = SendMessageRequest {
        to: vec!["a@x.y".to_string(), "b@x.y".to_string()],
        cc: Some(vec!["c@x.y".to_string()]),
        subject: "Quote".to_string(),
        body: "<p>body</p>".to_string(),
        thread_id: None,
        attachments: Some(vec![Attachment {
            filename: "quote.pdf".to_string(),
            content: b"hello".to_vec(),
            mime_type: "application/pdf".to_string(),
        }]),
    };
    let email = build_postmark_email("My Company", &req);
    assert_eq!(email.from, "mycompany@drayinsight.com");
    assert_eq!(email.to, "a@x.y,b@x.y");
    assert_eq!(email.cc.as_deref(), Some("c@x.y"));
    assert_eq!(email.subject, "Quote");
    assert_eq!(email.html_body, "<p>body</p>");
    assert_eq!(email.attachments.len(), 1);
    assert_eq!(email.attachments[0].name, "quote.pdf");
    assert_eq!(email.attachments[0].content, "aGVsbG8=");
    assert_eq!(email.attachments[0].content_type, "application/pdf");
}

#[test]
fn absent_cc_stays_absent() {
    let req = SendMessageRequest {
        to: vec!["a@x.y".to_string()],
        cc: None,
        subject: String::new(),
        body: String::new(),
        thread_id: None,
        attachments: None,
    };
    let email = build_postmark_email("x", &req);
    assert_eq!(email.cc, None);
    assert!(email.attachments.is_empty());
}

#[test]
fn profile_reports_the_derived_address() {
    let profile = postmark_profile("My Company");
    assert_eq!(profile.email, "mycompany@drayinsight.com");
    assert_eq!(profile.name.as_deref(), Some("My Company"));
    assert_eq!(profile.picture, None);
}

#[test]
fn send_url_is_fixed() {
    assert_eq!(postmark_send_url(), "https://api.postmarkapp.com/email");
}
