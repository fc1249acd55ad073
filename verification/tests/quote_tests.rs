use mailgate::error::AppError;
use mailgate::model::{ReminderWebhookRequest, SendQuoteRequest};
use mailgate::quote::{build_quote_send_request, build_reminder_send_request, reminder_token};

fn quote_request() -> SendQuoteRequest {
    SendQuoteRequest {
        quote_id: "q1".to_string(),
        version: None,
        provider: "gmail".to_string(),
        to: vec!["to@x.y".to_string()],
        cc: Some(vec!["cc@x.y".to_string()]),
        subject: "Your quote".to_string(),
        thread_id: Some("thread-9".to_string()),
        comment: None,
        pdf_export_settings: None,
        html_body: None,
        pdf_base64: None,
        pdf_name: None,
        maildata_identificator: None,
        company: None,
        trigger_reminder: None,
    }
}

fn reminder_request(keys: Option<&str>) -> ReminderWebhookRequest {
    ReminderWebhookRequest {
        content: "<p>reminder</p>".to_string(),
        subject: "Reminder".to_string(),
        cc: None,
        recipients: vec!["r@x.y".to_string()],
        identificator: None,
        file: "//host/file.pdf".to_string(),
        file_name: "file.pdf".to_string(),
        platform: "gmail".to_string(),
        keys: keys.map(str::to_string),
        company: None,
    }
}

#[test]
fn quote_send_request_attaches_the_pdf() {
    let req = quote_request();
    let send = build_quote_send_request(&req, "<p>html</p>".to_string(), b"pdf-bytes".to_vec(),
        "quote.pdf".to_string());
    assert_eq!(send.to, vec!["to@x.y".to_string()]);
    assert_eq!(send.cc, Some(vec!["cc@x.y".to_string()]));
    assert_eq!(send.subject, "Your quote");
    assert_eq!(send.body, "<p>html</p>");
    assert_eq!(send.thread_id.as_deref(), Some("thread-9"));
    let atts = send.attachments.expect("one attachment");
    assert_eq!(atts.len(), 1);
    assert_eq!(atts[0].filename, "quote.pdf");
    assert_eq!(atts[0].content, b"pdf-bytes");
    assert_eq!(atts[0].mime_type, "application/pdf");
}

#[test]
fn reminder_send_request_uses_the_webhook_fields() {
    let req = reminder_request(Some("key-1"));
    let send = build_reminder_send_request(&req, vec![9, 9, 9]);
    assert_eq!(send.to, vec!["r@x.y".to_string()]);
    assert_eq!(send.cc, None);
    assert_eq!(send.subject, "Reminder");
    assert_eq!(send.body, "<p>reminder</p>");
    assert_eq!(send.thread_id, None);
    let atts = send.attachments.expect("one attachment");
    assert_eq!(atts[0].filename, "file.pdf");
    assert_eq!(atts[0].content, vec![9, 9, 9]);
}

#[test]
fn reminder_webhook_requires_its_key() {
    assert_eq!(reminder_token(&reminder_request(Some("key-1"))).unwrap(), "key-1");
    match reminder_token(&reminder_request(None)).unwrap_err() {
        AppError::BadRequest { message } => {
            assert_eq!(message, "API Key (keys) is required for reminder webhook");
        },
        other => panic!("expected bad request, got {:?}", other),
    }
}
