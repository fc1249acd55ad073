//! Quote-mail and reminder-webhook helpers: classifying a caller-supplied
//! file reference as a download URL or inline base64 (with data-URI
//! prefixes stripped), normalizing protocol-relative URLs, and assembling
//! the canonical send requests those flows hand to an adapter.
use vstd::prelude::*;

verus! {

use vstd::string::StrSliceExecFns;
use vstd::string::StringExecFns;
use crate::b64::{b64_standard_of, b64_standard_decode};
use crate::error::AppError;
use crate::model::{Attachment, ReminderWebhookRequest, SendMessageRequest, SendQuoteRequest};
use crate::strutil::{find_char, has_prefix, str_starts_with, trim_ws, trim_ascii};

/// Whether a file reference names a remote resource rather than inline
/// content: it starts with `http` or is protocol-relative.
pub open spec fn is_remote_ref(c: Seq<char>) -> bool {
    has_prefix(c, "http"@) || has_prefix(c, "//"@)
}

/// A URL with a protocol-relative prefix completed to `https`.
pub open spec fn normalized_url(c: Seq<char>) -> Seq<char> {
    if has_prefix(c, "//"@) {
        "https:"@ + c
    } else {
        c
    }
}

/// Completes a protocol-relative URL to `https`.
pub fn ensure_https_protocol(u: &str) -> (r: String)
    ensures
        r@ == normalized_url(u@),
{
    if str_starts_with(u, "//") {
        let mut r = "https:".to_owned();
        r.append(u);
        r
    } else {
        u.to_owned()
    }
}

/// Whether the content holds a comma, the data-URI marker.
pub open spec fn contains_comma(s: Seq<char>) -> bool {
    exists|j: int| 0 <= j < s.len() && s[j] == ','
}

/// What follows the first comma of `s`.
pub open spec fn tail_after_comma(s: Seq<char>) -> Seq<char>
    decreases s.len(),
{
    if s.len() == 0 {
        s
    } else if s[0] == ',' {
        s.drop_first()
    } else {
        tail_after_comma(s.drop_first())
    }
}

proof fn lemma_tail_after_comma(s: Seq<char>, idx: int)
    requires
        0 <= idx < s.len(),
        s[idx] == ',',
        forall|j: int| 0 <= j < idx ==> s[j] != ',',
    ensures
        tail_after_comma(s) == s.skip(idx + 1),
    decreases idx,
{
    if idx == 0 {
        assert(tail_after_comma(s) == s.drop_first());
        assert(s.drop_first() =~= s.skip(1));
    } else {
        lemma_tail_after_comma(s.drop_first(), idx - 1);
        assert(s.drop_first().skip(idx) =~= s.skip(idx + 1));
    }
}

/// The base64 portion of an inline content string: everything after a
/// data-URI comma if one is present, trimmed.
pub open spec fn b64_portion(s: Seq<char>) -> Seq<char> {
    trim_ws(
        if contains_comma(s) {
            tail_after_comma(s)
        } else {
            s
        },
    )
}

/// A classified file reference: a remote URL to download, or decoded
/// inline bytes.
#[derive(Debug)]
pub enum FileSource {
    Url { url: String },
    Bytes { bytes: Vec<u8> },
}

/// Classifies a caller-supplied file reference: a remote reference becomes
/// its normalized URL; anything else is inline base64, whose data-URI
/// prefix is stripped and whose payload is decoded — content that is not a
/// canonical base64 encoding is rejected before any upstream call, with
/// the given label naming the field.
fn classify_file_content(content: &str, label: &str) -> (r: Result<FileSource, AppError>)
    ensures
        is_remote_ref(content@) ==> (r matches Ok(f) && f matches FileSource::Url { url }
            && url@ == normalized_url(content@)),
        !is_remote_ref(content@) ==> {
            &&& (r is Ok <==> exists|b: Seq<u8>| b64_portion(content@) == b64_standard_of(b))
            &&& forall|b: Seq<u8>|
                b64_portion(content@) == b64_standard_of(b) ==> (r matches Ok(f) && f matches
                    FileSource::Bytes { bytes } && bytes@ == b)
            &&& (r is Err ==> (r->Err_0 matches AppError::BadRequest { message } && message@
                == label@))
        },
{
    proof {
        reveal_strlit("http");
        reveal_strlit("//");
    }
    if str_starts_with(content, "http") || str_starts_with(content, "//") {
        return Ok(FileSource::Url { url: ensure_https_protocol(content) });
    }
    let len = content.unicode_len();
    let clean = match find_char(content, ',') {
        Some(idx) => {
            let tail = content.substring_char(idx + 1, len);
            proof {
                lemma_tail_after_comma(content@, idx as int);
                assert(tail@ =~= content@.skip(idx + 1));
            }
            tail.to_owned()
        },
        None => content.to_owned(),
    };
    let trimmed = trim_ascii(clean.as_str());
    match b64_standard_decode(trimmed.as_str()) {
        Some(bytes) => Ok(FileSource::Bytes { bytes }),
        None => Err(AppError::BadRequest { message: label.to_owned() }),
    }
}

/// Classifies the PDF reference of a quote-send request.
pub fn classify_pdf_content(content: &str) -> (r: Result<FileSource, AppError>)
    ensures
        is_remote_ref(content@) ==> (r matches Ok(f) && f matches FileSource::Url { url }
            && url@ == normalized_url(content@)),
        !is_remote_ref(content@) ==> {
            &&& (r is Ok <==> exists|b: Seq<u8>| b64_portion(content@) == b64_standard_of(b))
            &&& forall|b: Seq<u8>|
                b64_portion(content@) == b64_standard_of(b) ==> (r matches Ok(f) && f matches
                    FileSource::Bytes { bytes } && bytes@ == b)
            &&& (r is Err ==> (r->Err_0 matches AppError::BadRequest { message } && message@
                == "Invalid PDF base64"@))
        },
{
    classify_file_content(content, "Invalid PDF base64")
}

/// Classifies the file reference of a reminder webhook.
pub fn classify_reminder_file(content: &str) -> (r: Result<FileSource, AppError>)
    ensures
        is_remote_ref(content@) ==> (r matches Ok(f) && f matches FileSource::Url { url }
            && url@ == normalized_url(content@)),
        !is_remote_ref(content@) ==> {
            &&& (r is Ok <==> exists|b: Seq<u8>| b64_portion(content@) == b64_standard_of(b))
            &&& forall|b: Seq<u8>|
                b64_portion(content@) == b64_standard_of(b) ==> (r matches Ok(f) && f matches
                    FileSource::Bytes { bytes } && bytes@ == b)
            &&& (r is Err ==> (r->Err_0 matches AppError::BadRequest { message } && message@
                == "Invalid file base64"@))
        },
{
    classify_file_content(content, "Invalid file base64")
}

/// The credential a reminder webhook must carry in its `keys` field.
pub fn reminder_token(req: &ReminderWebhookRequest) -> (r: Result<String, AppError>)
    ensures
        match r {
            Ok(t) => req.keys.deep_view() matches Some(k) && t@ == k,
            Err(e) => req.keys is None && (e matches AppError::BadRequest { message } && message@
                == "API Key (keys) is required for reminder webhook"@),
        },
{
    match &req.keys {
        Some(k) => Ok(k.clone()),
        None => Err(
            AppError::BadRequest {
                message: "API Key (keys) is required for reminder webhook".to_owned(),
            },
        ),
    }
}

/// Assembles the canonical send request of a quote mail: the quote
/// recipients, subject and thread, the rendered HTML body, and the PDF as
/// the single attachment.
pub fn build_quote_send_request(
    req: &SendQuoteRequest,
    html_body: String,
    pdf_bytes: Vec<u8>,
    filename: String,
) -> (r: SendMessageRequest)
    ensures
        r@.to == req.to.deep_view(),
        r@.cc == req.cc.deep_view(),
        r@.subject == req.subject@,
        r@.body == html_body@,
        r@.thread_id == req.thread_id.deep_view(),
        r@.attachments matches Some(atts) && atts.len() == 1 && atts[0].filename == filename@
            && atts[0].content == pdf_bytes@ && atts[0].mime_type == "application/pdf"@,
{
    SendMessageRequest {
        to: crate::strutil::clone_string_vec(&req.to),
        cc: match &req.cc {
            Some(cc) => Some(crate::strutil::clone_string_vec(cc)),
            None => None,
        },
        subject: req.subject.clone(),
        body: html_body,
        thread_id: crate::model::clone_opt_string(&req.thread_id),
        attachments: Some(
            vec![
                Attachment {
                    filename,
                    content: pdf_bytes,
                    mime_type: "application/pdf".to_owned(),
                },
            ],
        ),
    }
}

/// Assembles the canonical send request of a reminder: the webhook's
/// recipients and subject, its content as the HTML body, no thread, and
/// the downloaded or decoded file as the single attachment.
pub fn build_reminder_send_request(req: &ReminderWebhookRequest, file_bytes: Vec<u8>) -> (r:
    SendMessageRequest)
    ensures
        r@.to == req.recipients.deep_view(),
        r@.cc == req.cc.deep_view(),
        r@.subject == req.subject@,
        r@.body == req.content@,
        r@.thread_id is None,
        r@.attachments matches Some(atts) && atts.len() == 1 && atts[0].filename
            == req.file_name@ && atts[0].content == file_bytes@ && atts[0].mime_type
            == "application/pdf"@,
{
    SendMessageRequest {
        to: crate::strutil::clone_string_vec(&req.recipients),
        cc: match &req.cc {
            Some(cc) => Some(crate::strutil::clone_string_vec(cc)),
            None => None,
        },
        subject: req.subject.clone(),
        body: req.content.clone(),
        thread_id: None,
        attachments: Some(
            vec![
                Attachment {
                    filename: req.file_name.clone(),
                    content: file_bytes,
                    mime_type: "application/pdf".to_owned(),
                },
            ],
        ),
    }
}

} // verus!
