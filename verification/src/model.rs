//! Canonical data model: the provider-agnostic message, attachment, label and
//! request shapes that every adapter produces or consumes, together with the
//! mathematical views the contracts are stated over.
use vstd::prelude::*;

verus! {

/// One message in a list result: the canonical summary every adapter produces.
#[derive(Debug, Clone, PartialEq)]
pub struct MessageSummary {
    pub id: String,
    pub thread_id: String,
    pub snippet: String,
    pub subject: Option<String>,
    pub from: Option<String>,
    pub date: Option<String>,
    pub unread: bool,
    pub has_attachments: bool,
    pub messages_in_thread: Option<u32>,
}

pub ghost struct MessageSummaryView {
    pub id: Seq<char>,
    pub thread_id: Seq<char>,
    pub snippet: Seq<char>,
    pub subject: Option<Seq<char>>,
    pub from: Option<Seq<char>>,
    pub date: Option<Seq<char>>,
    pub unread: bool,
    pub has_attachments: bool,
    pub messages_in_thread: Option<u32>,
}

impl View for MessageSummary {
    type V = MessageSummaryView;

    open spec fn view(&self) -> MessageSummaryView {
        MessageSummaryView {
            id: self.id@,
            thread_id: self.thread_id@,
            snippet: self.snippet@,
            subject: self.subject.deep_view(),
            from: self.from.deep_view(),
            date: self.date.deep_view(),
            unread: self.unread,
            has_attachments: self.has_attachments,
            messages_in_thread: self.messages_in_thread,
        }
    }
}

impl DeepView for MessageSummary {
    type V = MessageSummaryView;

    open spec fn deep_view(&self) -> MessageSummaryView {
        self.view()
    }
}

/// Copies an optional string, preserving its characters.
pub fn clone_opt_string(o: &Option<String>) -> (r: Option<String>)
    ensures
        r.deep_view() == o.deep_view(),
{
    match o {
        Some(s) => Some(s.clone()),
        None => None,
    }
}

impl MessageSummary {
    /// An equal copy.
    pub fn duplicate(&self) -> (r: MessageSummary)
        ensures
            r@ == self@,
    {
        MessageSummary {
            id: self.id.clone(),
            thread_id: self.thread_id.clone(),
            snippet: self.snippet.clone(),
            subject: clone_opt_string(&self.subject),
            from: clone_opt_string(&self.from),
            date: clone_opt_string(&self.date),
            unread: self.unread,
            has_attachments: self.has_attachments,
            messages_in_thread: self.messages_in_thread,
        }
    }
}

/// One attachment of a fetched message, as reported to the caller.
#[derive(Debug, Clone, PartialEq)]
pub struct AttachmentSummary {
    pub filename: String,
    pub content_type: String,
    pub size: usize,
    pub id: Option<String>,
}

pub ghost struct AttachmentSummaryView {
    pub filename: Seq<char>,
    pub content_type: Seq<char>,
    pub size: usize,
    pub id: Option<Seq<char>>,
}

impl View for AttachmentSummary {
    type V = AttachmentSummaryView;

    open spec fn view(&self) -> AttachmentSummaryView {
        AttachmentSummaryView {
            filename: self.filename@,
            content_type: self.content_type@,
            size: self.size,
            id: self.id.deep_view(),
        }
    }
}

impl DeepView for AttachmentSummary {
    type V = AttachmentSummaryView;

    open spec fn deep_view(&self) -> AttachmentSummaryView {
        self.view()
    }
}

/// One fully fetched message with its bodies and attachment summaries.
#[derive(Debug, Clone, PartialEq)]
pub struct CleanMessage {
    pub id: String,
    pub subject: Option<String>,
    pub from: Option<String>,
    pub to: Option<String>,
    pub date: Option<String>,
    pub snippet: String,
    pub body_text: Option<String>,
    pub body_html: Option<String>,
    pub attachments: Vec<AttachmentSummary>,
}

pub ghost struct CleanMessageView {
    pub id: Seq<char>,
    pub subject: Option<Seq<char>>,
    pub from: Option<Seq<char>>,
    pub to: Option<Seq<char>>,
    pub date: Option<Seq<char>>,
    pub snippet: Seq<char>,
    pub body_text: Option<Seq<char>>,
    pub body_html: Option<Seq<char>>,
    pub attachments: Seq<AttachmentSummaryView>,
}

impl View for CleanMessage {
    type V = CleanMessageView;

    open spec fn view(&self) -> CleanMessageView {
        CleanMessageView {
            id: self.id@,
            subject: self.subject.deep_view(),
            from: self.from.deep_view(),
            to: self.to.deep_view(),
            date: self.date.deep_view(),
            snippet: self.snippet@,
            body_text: self.body_text.deep_view(),
            body_html: self.body_html.deep_view(),
            attachments: self.attachments.deep_view(),
        }
    }
}

impl DeepView for CleanMessage {
    type V = CleanMessageView;

    open spec fn deep_view(&self) -> CleanMessageView {
        self.view()
    }
}

/// One outgoing attachment supplied by the caller of a send operation.
#[derive(Debug, Clone, PartialEq)]
pub struct Attachment {
    pub filename: String,
    pub content: Vec<u8>,
    pub mime_type: String,
}

pub ghost struct AttachmentView {
    pub filename: Seq<char>,
    pub content: Seq<u8>,
    pub mime_type: Seq<char>,
}

impl View for Attachment {
    type V = AttachmentView;

    open spec fn view(&self) -> AttachmentView {
        AttachmentView {
            filename: self.filename@,
            content: self.content@,
            mime_type: self.mime_type@,
        }
    }
}

impl DeepView for Attachment {
    type V = AttachmentView;

    open spec fn deep_view(&self) -> AttachmentView {
        self.view()
    }
}

/// A canonical send request.
#[derive(Debug, Clone, PartialEq)]
pub struct SendMessageRequest {
    pub to: Vec<String>,
    pub cc: Option<Vec<String>>,
    pub subject: String,
    pub body: String,
    pub thread_id: Option<String>,
    pub attachments: Option<Vec<Attachment>>,
}

pub ghost struct SendMessageRequestView {
    pub to: Seq<Seq<char>>,
    pub cc: Option<Seq<Seq<char>>>,
    pub subject: Seq<char>,
    pub body: Seq<char>,
    pub thread_id: Option<Seq<char>>,
    pub attachments: Option<Seq<AttachmentView>>,
}

impl View for SendMessageRequest {
    type V = SendMessageRequestView;

    open spec fn view(&self) -> SendMessageRequestView {
        SendMessageRequestView {
            to: self.to.deep_view(),
            cc: self.cc.deep_view(),
            subject: self.subject@,
            body: self.body@,
            thread_id: self.thread_id.deep_view(),
            attachments: self.attachments.deep_view(),
        }
    }
}

impl DeepView for SendMessageRequest {
    type V = SendMessageRequestView;

    open spec fn deep_view(&self) -> SendMessageRequestView {
        self.view()
    }
}

/// A label or folder exposed by a provider.
#[derive(Debug, Clone, PartialEq)]
pub struct Label {
    pub id: String,
    pub name: String,
    pub label_type: Option<String>,
}

pub ghost struct LabelView {
    pub id: Seq<char>,
    pub name: Seq<char>,
    pub label_type: Option<Seq<char>>,
}

impl View for Label {
    type V = LabelView;

    open spec fn view(&self) -> LabelView {
        LabelView { id: self.id@, name: self.name@, label_type: self.label_type.deep_view() }
    }
}

impl DeepView for Label {
    type V = LabelView;

    open spec fn deep_view(&self) -> LabelView {
        self.view()
    }
}

/// A batch label-modification request.
#[derive(Debug, Clone, PartialEq)]
pub struct BatchModifyRequest {
    pub ids: Vec<String>,
    pub add_label_ids: Option<Vec<String>>,
    pub remove_label_ids: Option<Vec<String>>,
}

pub ghost struct BatchModifyRequestView {
    pub ids: Seq<Seq<char>>,
    pub add_label_ids: Option<Seq<Seq<char>>>,
    pub remove_label_ids: Option<Seq<Seq<char>>>,
}

impl View for BatchModifyRequest {
    type V = BatchModifyRequestView;

    open spec fn view(&self) -> BatchModifyRequestView {
        BatchModifyRequestView {
            ids: self.ids.deep_view(),
            add_label_ids: self.add_label_ids.deep_view(),
            remove_label_ids: self.remove_label_ids.deep_view(),
        }
    }
}

impl DeepView for BatchModifyRequest {
    type V = BatchModifyRequestView;

    open spec fn deep_view(&self) -> BatchModifyRequestView {
        self.view()
    }
}

/// The canonical list-query parameters.
#[derive(Debug, Clone, PartialEq)]
pub struct ListParams {
    pub label_ids: Option<String>,
    pub max_results: Option<u32>,
    pub q: Option<String>,
    pub page_token: Option<String>,
    pub page_number: Option<u32>,
    pub collapse_threads: Option<bool>,
}

pub ghost struct ListParamsView {
    pub label_ids: Option<Seq<char>>,
    pub max_results: Option<u32>,
    pub q: Option<Seq<char>>,
    pub page_token: Option<Seq<char>>,
    pub page_number: Option<u32>,
    pub collapse_threads: Option<bool>,
}

impl View for ListParams {
    type V = ListParamsView;

    open spec fn view(&self) -> ListParamsView {
        ListParamsView {
            label_ids: self.label_ids.deep_view(),
            max_results: self.max_results,
            q: self.q.deep_view(),
            page_token: self.page_token.deep_view(),
            page_number: self.page_number,
            collapse_threads: self.collapse_threads,
        }
    }
}

impl DeepView for ListParams {
    type V = ListParamsView;

    open spec fn deep_view(&self) -> ListParamsView {
        self.view()
    }
}

/// The canonical result of a list operation.
#[derive(Debug, Clone, PartialEq)]
pub struct ListResponse {
    pub messages: Vec<MessageSummary>,
    pub next_page_token: Option<String>,
    pub page: u32,
    pub next_page: Option<u32>,
    pub result_size_estimate: Option<u64>,
    pub warning: Option<String>,
}

pub ghost struct ListResponseView {
    pub messages: Seq<MessageSummaryView>,
    pub next_page_token: Option<Seq<char>>,
    pub page: u32,
    pub next_page: Option<u32>,
    pub result_size_estimate: Option<u64>,
    pub warning: Option<Seq<char>>,
}

impl View for ListResponse {
    type V = ListResponseView;

    open spec fn view(&self) -> ListResponseView {
        ListResponseView {
            messages: self.messages.deep_view(),
            next_page_token: self.next_page_token.deep_view(),
            page: self.page,
            next_page: self.next_page,
            result_size_estimate: self.result_size_estimate,
            warning: self.warning.deep_view(),
        }
    }
}

impl DeepView for ListResponse {
    type V = ListResponseView;

    open spec fn deep_view(&self) -> ListResponseView {
        self.view()
    }
}

/// An account profile.
#[derive(Debug, Clone, PartialEq)]
pub struct UserProfile {
    pub email: String,
    pub name: Option<String>,
    pub picture: Option<String>,
}

pub ghost struct UserProfileView {
    pub email: Seq<char>,
    pub name: Option<Seq<char>>,
    pub picture: Option<Seq<char>>,
}

impl View for UserProfile {
    type V = UserProfileView;

    open spec fn view(&self) -> UserProfileView {
        UserProfileView {
            email: self.email@,
            name: self.name.deep_view(),
            picture: self.picture.deep_view(),
        }
    }
}

impl DeepView for UserProfile {
    type V = UserProfileView;

    open spec fn deep_view(&self) -> UserProfileView {
        self.view()
    }
}

/// Which provider a request addresses, plus the company used by the
/// transactional sender to derive its from-address.
#[derive(Debug, Clone, PartialEq)]
pub struct ProviderParams {
    pub provider: Option<String>,
    pub company: Option<String>,
}

/// The access level granted to a request by its API key.
#[derive(Clone, Copy, Debug, PartialEq)]
pub enum AuthLevel {
    Admin,
    Widget,
}

/// Application configuration values, loaded by the host process.
#[derive(Debug, Clone, PartialEq)]
pub struct Config {
    pub app_secret_key: String,
    pub bubble_api_token: String,
    pub widget_api_key: String,
    pub allowed_origins: Vec<String>,
}

/// Parameters of a quote-preview request.
#[derive(Debug, Clone, PartialEq)]
pub struct QuotePreviewParams {
    pub quote_id: String,
    pub version: Option<String>,
    pub comment: Option<String>,
    pub pdf_export_settings: Option<Vec<String>>,
}

/// A request to render and send a quote by mail.
#[derive(Debug, Clone, PartialEq)]
pub struct SendQuoteRequest {
    pub quote_id: String,
    pub version: Option<String>,
    pub provider: String,
    pub to: Vec<String>,
    pub cc: Option<Vec<String>>,
    pub subject: String,
    pub thread_id: Option<String>,
    pub comment: Option<String>,
    pub pdf_export_settings: Option<Vec<String>>,
    pub html_body: Option<String>,
    pub pdf_base64: Option<String>,
    pub pdf_name: Option<String>,
    pub maildata_identificator: Option<String>,
    pub company: Option<String>,
    pub trigger_reminder: Option<bool>,
}

/// A reminder webhook payload.
#[derive(Debug, Clone, PartialEq)]
pub struct ReminderWebhookRequest {
    pub content: String,
    pub subject: String,
    pub cc: Option<Vec<String>>,
    pub recipients: Vec<String>,
    pub identificator: Option<String>,
    pub file: String,
    pub file_name: String,
    pub platform: String,
    pub keys: Option<String>,
    pub company: Option<String>,
}

} // verus!
