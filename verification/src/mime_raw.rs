//! Trusted wrappers around the mail-parser crate, which parses a raw MIME
//! envelope. Parsing is deterministic in the raw bytes, so each extracted
//! field is named as an uninterpreted function of the bytes; every wrapper
//! re-parses the bytes and hands one field out as plain values. When the
//! bytes do not parse, the field wrappers report the empty outcome, and
//! callers test `mime_parse_ok` first to tell that apart from an absent
//! field.
use vstd::prelude::*;

use mail_parser::{MessageParser, MimeHeaders};

verus! {

/// Whether the bytes parse as a MIME document.
pub uninterp spec fn mime_parses(b: Seq<u8>) -> bool;

/// The subject of the parsed document, if present.
pub uninterp spec fn mime_subject_of(b: Seq<u8>) -> Option<Seq<char>>;

/// The first "from" mailbox of the parsed document: present or not, and its
/// display name and address.
pub uninterp spec fn mime_from_of(b: Seq<u8>) -> Option<(Option<Seq<char>>, Option<Seq<char>>)>;

/// The first "to" address of the parsed document: whether a "to" field is
/// present, and the address of its first mailbox.
pub uninterp spec fn mime_to_of(b: Seq<u8>) -> Option<Option<Seq<char>>>;

/// The date of the parsed document, normalized to RFC 3339.
pub uninterp spec fn mime_date_of(b: Seq<u8>) -> Option<Seq<char>>;

/// The first plain-text body part of the parsed document.
pub uninterp spec fn mime_body_text_of(b: Seq<u8>) -> Option<Seq<char>>;

/// The first HTML body part of the parsed document.
pub uninterp spec fn mime_body_html_of(b: Seq<u8>) -> Option<Seq<char>>;

/// What one attachment part reports: its explicit attachment name, the
/// "name" parameter of its content type, its content type and subtype, its
/// decoded size, and its content id.
pub struct MimePartInfo {
    pub attachment_name: Option<String>,
    pub type_name_param: Option<String>,
    pub main_type: Option<String>,
    pub sub_type: Option<String>,
    pub size: usize,
    pub content_id: Option<String>,
}

pub ghost struct MimePartInfoView {
    pub attachment_name: Option<Seq<char>>,
    pub type_name_param: Option<Seq<char>>,
    pub main_type: Option<Seq<char>>,
    pub sub_type: Option<Seq<char>>,
    pub size: usize,
    pub content_id: Option<Seq<char>>,
}

impl View for MimePartInfo {
    type V = MimePartInfoView;

    open spec fn view(&self) -> MimePartInfoView {
        MimePartInfoView {
            attachment_name: self.attachment_name.deep_view(),
            type_name_param: self.type_name_param.deep_view(),
            main_type: self.main_type.deep_view(),
            sub_type: self.sub_type.deep_view(),
            size: self.size,
            content_id: self.content_id.deep_view(),
        }
    }
}

impl DeepView for MimePartInfo {
    type V = MimePartInfoView;

    open spec fn deep_view(&self) -> MimePartInfoView {
        self.view()
    }
}

/// The attachment parts of the parsed document, in order; empty when the
/// bytes do not parse.
pub uninterp spec fn mime_attachments_of(b: Seq<u8>) -> Seq<MimePartInfoView>;

/// Relies on mail-parser's `MessageParser::parse`: whether the bytes parse
/// depends on the bytes alone.
#[verifier::external_body]
pub(crate) fn mime_parse_ok(b: &[u8]) -> (r: bool)
    ensures
        r == mime_parses(b@),
{
    MessageParser::default().parse(b).is_some()
}

/// Relies on mail-parser's `Message::subject`.
#[verifier::external_body]
pub(crate) fn mime_subject(b: &[u8]) -> (r: Option<String>)
    ensures
        r.deep_view() == mime_subject_of(b@),
{
    MessageParser::default().parse(b).and_then(|m| m.subject().map(|s| s.to_string()))
}

/// Relies on mail-parser's `Message::from` and the first mailbox's
/// `name` and `address` accessors.
#[verifier::external_body]
pub(crate) fn mime_from(b: &[u8]) -> (r: Option<(Option<String>, Option<String>)>)
    ensures
        r.deep_view() == mime_from_of(b@),
{
    MessageParser::default().parse(b).and_then(|m| m.from().map(|f| match f.first() {
        Some(a) => (a.name().map(|s| s.to_string()), a.address().map(|s| s.to_string())),
        None => (None, None),
    }))
}

/// Relies on mail-parser's `Message::to` and the first mailbox's `address`.
#[verifier::external_body]
pub(crate) fn mime_to(b: &[u8]) -> (r: Option<Option<String>>)
    ensures
        r.deep_view() == mime_to_of(b@),
{
    MessageParser::default().parse(b).and_then(|m| m.to().map(|t| t.first().and_then(|a|
        a.address().map(|s| s.to_string())
    )))
}

/// Relies on mail-parser's `Message::date` and `DateTime::to_rfc3339`.
#[verifier::external_body]
pub(crate) fn mime_date(b: &[u8]) -> (r: Option<String>)
    ensures
        r.deep_view() == mime_date_of(b@),
{
    MessageParser::default().parse(b).and_then(|m| m.date().map(|d| d.to_rfc3339()))
}

/// Relies on mail-parser's `Message::body_text` for the first text part.
#[verifier::external_body]
pub(crate) fn mime_body_text(b: &[u8]) -> (r: Option<String>)
    ensures
        r.deep_view() == mime_body_text_of(b@),
{
    MessageParser::default().parse(b).and_then(|m| m.body_text(0).map(|c| c.into_owned()))
}

/// Relies on mail-parser's `Message::body_html` for the first HTML part.
#[verifier::external_body]
pub(crate) fn mime_body_html(b: &[u8]) -> (r: Option<String>)
    ensures
        r.deep_view() == mime_body_html_of(b@),
{
    MessageParser::default().parse(b).and_then(|m| m.body_html(0).map(|c| c.into_owned()))
}

/// Relies on mail-parser's `Message::attachments` and the part accessors
/// `attachment_name`, `content_type`, `contents` and `content_id`.
#[verifier::external_body]
pub(crate) fn mime_attachments(b: &[u8]) -> (r: Vec<MimePartInfo>)
    ensures
        r.deep_view() == mime_attachments_of(b@),
{
    match MessageParser::default().parse(b) {
        Some(m) => m.attachments().map(|a| MimePartInfo {
            attachment_name: a.attachment_name().map(|s| s.to_string()),
            type_name_param: a.content_type().and_then(|c| c.attribute("name")).map(|s| s.to_string()),
            main_type: a.content_type().map(|c| c.c_type.to_string()),
            sub_type: a.content_type().and_then(|c| c.c_subtype.as_ref()).map(|s| s.to_string()),
            size: a.contents().len(),
            content_id: a.content_id().map(|s| s.to_string()),
        }).collect(),
        None => Vec::new(),
    }
}

} // verus!
