//! Folder/REST adapter: maps the four well-known canonical labels to fixed
//! upstream folders, builds offset-paged list queries with a fixed field
//! projection, summarizes upstream messages, shapes send payloads with
//! base64 attachment bodies, and plans batch label modification as one move
//! per message toward the first requested destination.
use vstd::prelude::*;

verus! {

use vstd::string::StringExecFns;
use crate::b64::{b64_standard_of, b64_standard_encode};
use crate::cache::opt_or_empty;
use crate::model::{BatchModifyRequest, BatchModifyRequestView, CleanMessage, Label,
    ListParams, ListParamsView, MessageSummary, SendMessageRequest, AttachmentView};
use crate::strutil::{clone_string_vec, dec_of, join_with, join_strings, str_eq, u64_to_dec};

/// The folder listing endpoint a label filter resolves to: the four
/// canonical names map to fixed upstream folders, any other value passes
/// through verbatim as a folder id, and no filter lists all messages.
pub open spec fn outlook_folder_url(label: Option<Seq<char>>) -> Seq<char> {
    match label {
        None => "https://graph.microsoft.com/v1.0/me/messages"@,
        Some(l) => if l == "INBOX"@ {
            "https://graph.microsoft.com/v1.0/me/mailFolders/inbox/messages"@
        } else if l == "SENT"@ {
            "https://graph.microsoft.com/v1.0/me/mailFolders/sentitems/messages"@
        } else if l == "DRAFT"@ {
            "https://graph.microsoft.com/v1.0/me/mailFolders/drafts/messages"@
        } else if l == "TRASH"@ {
            "https://graph.microsoft.com/v1.0/me/mailFolders/deleteditems/messages"@
        } else {
            "https://graph.microsoft.com/v1.0/me/mailFolders/"@ + l + "/messages"@
        },
    }
}

/// The fixed field projection every list call requests.
pub open spec fn outlook_select_part() -> Seq<char> {
    "$select=id,subject,from,receivedDateTime,isRead,hasAttachments,bodyPreview,conversationId"@
}

/// The page size of a list call: ten unless overridden once by the caller.
pub open spec fn outlook_top(params: ListParamsView) -> u32 {
    match params.max_results {
        Some(m) => m,
        None => 10,
    }
}

/// The skip offset of a list call: `(page - 1) * page_size` for an explicit
/// page past the first, with no offset otherwise.
pub open spec fn outlook_skip(params: ListParamsView) -> Option<int> {
    match params.page_number {
        Some(p) => if p > 1 {
            Some((p - 1) * outlook_top(params))
        } else {
            None
        },
        None => None,
    }
}

/// The query parts of a list call, in order: projection, page size, skip
/// offset when paging, and the quoted free-text search.
pub open spec fn outlook_query_parts(params: ListParamsView) -> Seq<Seq<char>> {
    seq![outlook_select_part()] + seq!["$top="@ + dec_of(outlook_top(params) as int)] + (
    match outlook_skip(params) {
        Some(skip) => seq!["$skip="@ + dec_of(skip)],
        None => Seq::empty(),
    }) + (match params.q {
        Some(q) => seq!["$search=\""@ + q + "\""@],
        None => Seq::empty(),
    })
}

/// The full URL of a list call.
pub open spec fn outlook_list_url_of(params: ListParamsView) -> Seq<char> {
    outlook_folder_url(params.label_ids) + "?"@ + join_with(outlook_query_parts(params), "&"@)
}

/// Builds the URL of a list call.
pub fn build_outlook_list_url(params: &ListParams) -> (r: String)
    ensures
        r@ == outlook_list_url_of(params@),
{
    let mut url = match &params.label_ids {
        None => "https://graph.microsoft.com/v1.0/me/messages".to_owned(),
        Some(l) => {
            if str_eq(l.as_str(), "INBOX") {
                "https://graph.microsoft.com/v1.0/me/mailFolders/inbox/messages".to_owned()
            } else if str_eq(l.as_str(), "SENT") {
                "https://graph.microsoft.com/v1.0/me/mailFolders/sentitems/messages".to_owned()
            } else if str_eq(l.as_str(), "DRAFT") {
                "https://graph.microsoft.com/v1.0/me/mailFolders/drafts/messages".to_owned()
            } else if str_eq(l.as_str(), "TRASH") {
                "https://graph.microsoft.com/v1.0/me/mailFolders/deleteditems/messages".to_owned()
            } else {
                let mut u = "https://graph.microsoft.com/v1.0/me/mailFolders/".to_owned();
                u.append(l.as_str());
                u.append("/messages");
                u
            }
        },
    };
    let mut parts: Vec<String> = Vec::new();
    parts.push(
        "$select=id,subject,from,receivedDateTime,isRead,hasAttachments,bodyPreview,conversationId".to_owned(),
    );
    let top = match params.max_results {
        Some(m) => m,
        None => 10,
    };
    let mut top_part = "$top=".to_owned();
    let tops = u64_to_dec(top as u64);
    top_part.append(tops.as_str());
    parts.push(top_part);
    match params.page_number {
        Some(p) => {
            if p > 1 {
                proof {
                    assert((p as int - 1) * (top as int) < 0x10000000000000000) by (nonlinear_arith)
                        requires
                            1 <= p <= u32::MAX,
                            0 <= top <= u32::MAX,
                    ;
                }
                let skip: u64 = (p as u64 - 1) * (top as u64);
                let mut skip_part = "$skip=".to_owned();
                let skips = u64_to_dec(skip);
                skip_part.append(skips.as_str());
                parts.push(skip_part);
                proof {
                    assert(skip == outlook_skip(params@)->0);
                }
            }
        },
        None => (),
    }
    match &params.q {
        Some(q) => {
            let mut search = "$search=\"".to_owned();
            search.append(q.as_str());
            search.append("\"");
            parts.push(search);
        },
        None => (),
    }
    proof {
        assert(parts.deep_view() =~~= outlook_query_parts(params@));
    }
    url.append("?");
    let joined = join_strings(&parts, "&");
    url.append(joined.as_str());
    proof {
        assert(url@ =~= outlook_list_url_of(params@));
    }
    url
}

/// The URL a single message is fetched at.
pub fn outlook_message_url(id: &str) -> (r: String)
    ensures
        r@ == "https://graph.microsoft.com/v1.0/me/messages/"@ + id@,
{
    let mut url = "https://graph.microsoft.com/v1.0/me/messages/".to_owned();
    url.append(id);
    url
}

/// The preference header value asking the upstream for text-mode bodies.
pub fn outlook_body_preference() -> (r: String)
    ensures
        r@ == "outlook.body-content-type=\"text\""@,
{
    "outlook.body-content-type=\"text\"".to_owned()
}

/// The URL send calls post to.
pub fn outlook_send_url() -> (r: String)
    ensures
        r@ == "https://graph.microsoft.com/v1.0/me/sendMail"@,
{
    "https://graph.microsoft.com/v1.0/me/sendMail".to_owned()
}

/// The URL folders are listed at, with its bounded page size.
pub fn outlook_folders_url() -> (r: String)
    ensures
        r@ == "https://graph.microsoft.com/v1.0/me/mailFolders?$top=99"@,
{
    "https://graph.microsoft.com/v1.0/me/mailFolders?$top=99".to_owned()
}

/// The URL one message is moved at.
pub fn outlook_move_url(id: &str) -> (r: String)
    ensures
        r@ == "https://graph.microsoft.com/v1.0/me/messages/"@ + id@ + "/move"@,
{
    let mut url = "https://graph.microsoft.com/v1.0/me/messages/".to_owned();
    url.append(id);
    url.append("/move");
    proof {
        assert(url@ =~= "https://graph.microsoft.com/v1.0/me/messages/"@ + id@ + "/move"@);
    }
    url
}

/// Everything of one upstream list item the summary reads.
pub struct GraphMessage {
    pub id: Option<String>,
    pub conversation_id: Option<String>,
    pub body_preview: Option<String>,
    pub subject: Option<String>,
    pub from_address: Option<String>,
    pub from_name: Option<String>,
    pub received: Option<String>,
    pub is_read: Option<bool>,
    pub has_attachments: Option<bool>,
}

/// The sender a message reports: its address, else its display name.
pub open spec fn graph_from(address: Option<Seq<char>>, name: Option<Seq<char>>) -> Option<
    Seq<char>,
> {
    match address {
        Some(a) => Some(a),
        None => name,
    }
}

/// Summarizes one upstream list item: absent text fields become empty ids
/// and snippets, the sender is the address else the display name, a message
/// is unread unless reported read, and attachment presence defaults to
/// absent.
pub fn summarize_graph_message(m: &GraphMessage) -> (r: MessageSummary)
    ensures
        r@.id == opt_or_empty(m.id.deep_view()),
        r@.thread_id == opt_or_empty(m.conversation_id.deep_view()),
        r@.snippet == opt_or_empty(m.body_preview.deep_view()),
        r@.subject == m.subject.deep_view(),
        r@.from == graph_from(m.from_address.deep_view(), m.from_name.deep_view()),
        r@.date == m.received.deep_view(),
        r@.unread == !(match m.is_read {
            Some(b) => b,
            None => true,
        }),
        r@.has_attachments == (match m.has_attachments {
            Some(b) => b,
            None => false,
        }),
        r@.messages_in_thread is None,
{
    MessageSummary {
        id: opt_string_or_empty(&m.id),
        thread_id: opt_string_or_empty(&m.conversation_id),
        snippet: opt_string_or_empty(&m.body_preview),
        subject: crate::model::clone_opt_string(&m.subject),
        from: match &m.from_address {
            Some(a) => Some(a.clone()),
            None => crate::model::clone_opt_string(&m.from_name),
        },
        date: crate::model::clone_opt_string(&m.received),
        unread: !(match m.is_read {
            Some(b) => b,
            None => true,
        }),
        has_attachments: match m.has_attachments {
            Some(b) => b,
            None => false,
        },
        messages_in_thread: None,
    }
}

fn opt_string_or_empty(o: &Option<String>) -> (r: String)
    ensures
        r@ == opt_or_empty(o.deep_view()),
{
    match o {
        Some(s) => s.clone(),
        None => String::new(),
    }
}

/// Everything of one fetched upstream message the canonical detail reads.
pub struct GraphDetail {
    pub subject: Option<String>,
    pub from_address: Option<String>,
    pub from_name: Option<String>,
    pub received: Option<String>,
    pub body_preview: Option<String>,
    pub to_addresses: Option<Vec<String>>,
    pub body_content: Option<String>,
}

/// The canonical detail of a fetched message: the sender is the address
/// else the display name, recipients are joined with `", "`, the text-mode
/// body content is the plain-text body, and no HTML body or attachments are
/// reported.
pub fn outlook_detail_message(id: &str, d: &GraphDetail) -> (r: CleanMessage)
    ensures
        r@.id == id@,
        r@.subject == d.subject.deep_view(),
        r@.from == graph_from(d.from_address.deep_view(), d.from_name.deep_view()),
        r@.to == (match d.to_addresses.deep_view() {
            Some(addrs) => Some(join_with(addrs, ", "@)),
            None => None::<Seq<char>>,
        }),
        r@.date == d.received.deep_view(),
        r@.snippet == opt_or_empty(d.body_preview.deep_view()),
        r@.body_text == d.body_content.deep_view(),
        r@.body_html is None,
        r@.attachments.len() == 0,
{
    CleanMessage {
        id: id.to_owned(),
        subject: crate::model::clone_opt_string(&d.subject),
        from: match &d.from_address {
            Some(a) => Some(a.clone()),
            None => crate::model::clone_opt_string(&d.from_name),
        },
        to: match &d.to_addresses {
            Some(addrs) => Some(join_strings(addrs, ", ")),
            None => None,
        },
        date: crate::model::clone_opt_string(&d.received),
        snippet: opt_string_or_empty(&d.body_preview),
        body_text: crate::model::clone_opt_string(&d.body_content),
        body_html: None,
        attachments: Vec::new(),
    }
}

/// One attachment of a send payload, its bytes already transport-encoded.
pub struct OutlookAttachment {
    pub name: String,
    pub content_type: String,
    pub content_bytes: String,
}

pub ghost struct OutlookAttachmentView {
    pub name: Seq<char>,
    pub content_type: Seq<char>,
    pub content_bytes: Seq<char>,
}

impl View for OutlookAttachment {
    type V = OutlookAttachmentView;

    open spec fn view(&self) -> OutlookAttachmentView {
        OutlookAttachmentView {
            name: self.name@,
            content_type: self.content_type@,
            content_bytes: self.content_bytes@,
        }
    }
}

impl DeepView for OutlookAttachment {
    type V = OutlookAttachmentView;

    open spec fn deep_view(&self) -> OutlookAttachmentView {
        self.view()
    }
}

/// The attachment entries a send request maps to: one per outgoing
/// attachment, bytes in standard base64.
pub open spec fn outlook_attachments_of(atts: Seq<AttachmentView>) -> Seq<OutlookAttachmentView> {
    atts.map_values(
        |a: AttachmentView| OutlookAttachmentView {
            name: a.filename,
            content_type: a.mime_type,
            content_bytes: b64_standard_of(a.content),
        },
    )
}

/// A send payload: the canonical request shaped for the upstream, with
/// recipients as structured fields and attachments inline in base64.
pub struct OutlookMailPayload {
    pub subject: String,
    pub body_html: String,
    pub to: Vec<String>,
    pub cc: Vec<String>,
    pub attachments: Vec<OutlookAttachment>,
    pub save_to_sent: bool,
}

/// Builds the send payload of a canonical request: subject and HTML body
/// verbatim, the recipient and cc lists as structured fields (an absent cc
/// list becomes empty), each attachment base64-encoded, and the sent-items
/// copy requested.
pub fn build_outlook_send_payload(req: &SendMessageRequest) -> (r: OutlookMailPayload)
    ensures
        r.subject@ == req@.subject,
        r.body_html@ == req@.body,
        r.to.deep_view() == req@.to,
        r.cc.deep_view() == (match req@.cc {
            Some(cc) => cc,
            None => Seq::<Seq<char>>::empty(),
        }),
        r.attachments.deep_view() == outlook_attachments_of(
            match req@.attachments {
                Some(atts) => atts,
                None => Seq::<AttachmentView>::empty(),
            },
        ),
        r.save_to_sent == true,
{
    let mut attachments: Vec<OutlookAttachment> = Vec::new();
    match &req.attachments {
        Some(atts) => {
            let ghost av = atts.deep_view();
            let mut i: usize = 0;
            proof {
                assert(attachments.deep_view() =~= outlook_attachments_of(av.take(0)));
            }
            while i < atts.len()
                invariant
                    i <= atts.len(),
                    av == atts.deep_view(),
                    av.len() == atts.len(),
                    attachments.deep_view() == outlook_attachments_of(av.take(i as int)),
                decreases atts.len() - i,
            {
                let entry = OutlookAttachment {
                    name: atts[i].filename.clone(),
                    content_type: atts[i].mime_type.clone(),
                    content_bytes: b64_standard_encode(atts[i].content.as_slice()),
                };
                let ghost prev = attachments.deep_view();
                attachments.push(entry);
                proof {
                    assert(attachments.deep_view() =~= prev.push(entry@));
                    assert(prev.push(entry@) =~= outlook_attachments_of(av.take(i + 1)));
                }
                i += 1;
            }
            proof {
                assert(av.take(atts.len() as int) =~= av);
            }
        },
        None => {
            proof {
                assert(attachments.deep_view() =~= outlook_attachments_of(
                    Seq::<AttachmentView>::empty(),
                ));
            }
        },
    }
    OutlookMailPayload {
        subject: req.subject.clone(),
        body_html: req.body.clone(),
        to: clone_string_vec(&req.to),
        cc: match &req.cc {
            Some(cc) => clone_string_vec(cc),
            None => Vec::new(),
        },
        attachments,
        save_to_sent: true,
    }
}

/// One folder of the upstream folder listing.
pub struct GraphFolder {
    pub id: Option<String>,
    pub display_name: Option<String>,
}

/// The canonical label one folder maps to, tagged with the generic "user"
/// type.
pub fn folder_to_label(f: &GraphFolder) -> (r: Label)
    ensures
        r@.id == opt_or_empty(f.id.deep_view()),
        r@.name == opt_or_empty(f.display_name.deep_view()),
        r@.label_type matches Some(t) && t == "user"@,
{
    Label {
        id: opt_string_or_empty(&f.id),
        name: opt_string_or_empty(&f.display_name),
        label_type: Some("user".to_owned()),
    }
}

/// The destination of a batch modification: the first id of the "add" list,
/// the only one honored.
pub open spec fn first_add_label(req: BatchModifyRequestView) -> Option<Seq<char>> {
    match req.add_label_ids {
        Some(ids) => if ids.len() > 0 {
            Some(ids[0])
        } else {
            None
        },
        None => None,
    }
}

/// One planned move operation.
pub struct MoveOp {
    pub message_id: String,
    pub destination_id: String,
}

pub ghost struct MoveOpView {
    pub message_id: Seq<char>,
    pub destination_id: Seq<char>,
}

impl View for MoveOp {
    type V = MoveOpView;

    open spec fn view(&self) -> MoveOpView {
        MoveOpView { message_id: self.message_id@, destination_id: self.destination_id@ }
    }
}

impl DeepView for MoveOp {
    type V = MoveOpView;

    open spec fn deep_view(&self) -> MoveOpView {
        self.view()
    }
}

/// The moves a batch modification plans: none when the "add" list names no
/// destination (the call is then a no-op success), else one move per
/// message id, in order, all toward the first "add" id.
pub open spec fn planned_moves(req: BatchModifyRequestView) -> Seq<MoveOpView> {
    match first_add_label(req) {
        None => Seq::empty(),
        Some(dest) => req.ids.map_values(
            |id: Seq<char>| MoveOpView { message_id: id, destination_id: dest },
        ),
    }
}

/// Plans a batch modification as per-message move operations.
pub fn plan_moves(req: &BatchModifyRequest) -> (r: Vec<MoveOp>)
    ensures
        r.deep_view() == planned_moves(req@),
{
    let dest = match &req.add_label_ids {
        Some(ids) => {
            if ids.len() > 0 {
                Some(ids[0].clone())
            } else {
                None
            }
        },
        None => None,
    };
    match dest {
        None => {
            let r: Vec<MoveOp> = Vec::new();
            proof {
                assert(r.deep_view() =~= planned_moves(req@));
            }
            r
        },
        Some(d) => {
            let ghost ids = req.ids.deep_view();
            let mut r: Vec<MoveOp> = Vec::new();
            let mut i: usize = 0;
            while i < req.ids.len()
                invariant
                    i <= req.ids.len(),
                    ids == req.ids.deep_view(),
                    ids.len() == req.ids.len(),
                    d@ == first_add_label(req@)->0,
                    first_add_label(req@) is Some,
                    r.deep_view() == ids.take(i as int).map_values(
                        |id: Seq<char>| MoveOpView { message_id: id, destination_id: d@ },
                    ),
                decreases req.ids.len() - i,
            {
                let op = MoveOp { message_id: req.ids[i].clone(), destination_id: d.clone() };
                let ghost prev = r.deep_view();
                r.push(op);
                proof {
                    assert(r.deep_view() =~= prev.push(op@));
                    assert(ids.take(i + 1).drop_last() =~= ids.take(i as int));
                    assert(prev.push(op@) =~~= ids.take(i + 1).map_values(
                        |id: Seq<char>| MoveOpView { message_id: id, destination_id: d@ },
                    ));
                }
                i += 1;
            }
            proof {
                assert(ids.take(req.ids.len() as int) =~= ids);
                assert(r.deep_view() =~~= planned_moves(req@));
            }
            r
        },
    }
}

} // verus!
