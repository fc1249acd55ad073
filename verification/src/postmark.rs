//! Transactional-send adapter: send-only semantics. Listing yields an empty
//! result by policy, fetching a message is an explicit unsupported-operation
//! failure, the sender address is derived deterministically from the
//! caller's company name, and attachments ride inline in the JSON payload in
//! standard base64 — no MIME envelope is built.
use vstd::prelude::*;

verus! {

use vstd::string::StringExecFns;
use crate::b64::{b64_standard_of, b64_standard_encode};
use crate::error::AppError;
use crate::model::{AttachmentView, ListResponse, SendMessageRequest, UserProfile};
use crate::strutil::{join_with, join_strings, not_space};

/// What a string lowercases to. Relies on str::to_lowercase, which maps the
/// characters according to the Unicode lowercase property; the result
/// depends on the characters alone.
pub uninterp spec fn lower_of(s: Seq<char>) -> Seq<char>;

/// Relies on str::to_lowercase for the named result above.
#[verifier::external_body]
fn lowercase(s: &str) -> (r: String)
    ensures
        r@ == lower_of(s@),
        s@.len() == 0 ==> r@.len() == 0,
{
    s.to_lowercase()
}

/// The sender address a company name derives to: the name lower-cased, its
/// spaces stripped, joined to the fixed domain.
pub open spec fn postmark_address_of(company: Seq<char>) -> Seq<char> {
    lower_of(company).filter(not_space()) + "@drayinsight.com"@
}

/// Derives the deterministic sender address of a company name.
pub fn postmark_from_address(company: &str) -> (r: String)
    ensures
        r@ == postmark_address_of(company@),
{
    let lowered = lowercase(company);
    let mut r = crate::strutil::remove_spaces(lowered.as_str());
    r.append("@drayinsight.com");
    r
}

/// The empty listing the send-only provider yields by policy: no messages,
/// no cursor, a zero estimate — and no error.
pub fn postmark_list_response() -> (r: ListResponse)
    ensures
        r@.messages.len() == 0,
        r@.next_page_token is None,
        r@.page == 1,
        r@.next_page is None,
        r@.result_size_estimate == Some(0u64),
        r@.warning is None,
{
    ListResponse {
        messages: Vec::new(),
        next_page_token: None,
        page: 1,
        next_page: None,
        result_size_estimate: Some(0),
        warning: None,
    }
}

/// The explicit failure fetching a message yields: the operation is not
/// supported for this provider, never a degraded empty stand-in.
pub fn postmark_get_message_error() -> (r: AppError)
    ensures
        r matches AppError::BadRequest { message } && message@
            == "Message viewing not supported for Postmark"@,
{
    AppError::BadRequest { message: "Message viewing not supported for Postmark".to_owned() }
}

/// The URL send calls post to.
pub fn postmark_send_url() -> (r: String)
    ensures
        r@ == "https://api.postmarkapp.com/email"@,
{
    "https://api.postmarkapp.com/email".to_owned()
}

/// The token a send call authenticates with: the server-side token when the
/// caller supplies none.
pub fn postmark_auth_token(caller: &str, server: &str) -> (r: String)
    ensures
        caller@.len() == 0 ==> r@ == server@,
        caller@.len() > 0 ==> r@ == caller@,
{
    if caller.is_empty() {
        server.to_owned()
    } else {
        caller.to_owned()
    }
}

/// One attachment of a send payload, its bytes already transport-encoded.
pub struct PostmarkAttachment {
    pub name: String,
    pub content: String,
    pub content_type: String,
}

pub ghost struct PostmarkAttachmentView {
    pub name: Seq<char>,
    pub content: Seq<char>,
    pub content_type: Seq<char>,
}

impl View for PostmarkAttachment {
    type V = PostmarkAttachmentView;

    open spec fn view(&self) -> PostmarkAttachmentView {
        PostmarkAttachmentView {
            name: self.name@,
            content: self.content@,
            content_type: self.content_type@,
        }
    }
}

impl DeepView for PostmarkAttachment {
    type V = PostmarkAttachmentView;

    open spec fn deep_view(&self) -> PostmarkAttachmentView {
        self.view()
    }
}

/// The attachment entries a send request maps to: one per outgoing
/// attachment, bytes in standard base64.
pub open spec fn postmark_attachments_of(atts: Seq<AttachmentView>) -> Seq<
    PostmarkAttachmentView,
> {
    atts.map_values(
        |a: AttachmentView| PostmarkAttachmentView {
            name: a.filename,
            content: b64_standard_of(a.content),
            content_type: a.mime_type,
        },
    )
}

/// A send payload: one JSON-shaped value with the derived sender, the
/// comma-joined recipient lists, the HTML body and the inline attachments.
pub struct PostmarkEmail {
    pub from: String,
    pub to: String,
    pub cc: Option<String>,
    pub subject: String,
    pub html_body: String,
    pub attachments: Vec<PostmarkAttachment>,
}

/// Builds the send payload of a canonical request for a company: the sender
/// is derived from the company name, recipients and cc are comma-joined (an
/// absent cc list stays absent), and each attachment is base64-encoded
/// inline.
pub fn build_postmark_email(company: &str, req: &SendMessageRequest) -> (r: PostmarkEmail)
    ensures
        r.from@ == postmark_address_of(company@),
        r.to@ == join_with(req@.to, ","@),
        r.cc.deep_view() == (match req@.cc {
            Some(cc) => Some(join_with(cc, ","@)),
            None => None::<Seq<char>>,
        }),
        r.subject@ == req@.subject,
        r.html_body@ == req@.body,
        r.attachments.deep_view() == postmark_attachments_of(
            match req@.attachments {
                Some(atts) => atts,
                None => Seq::<AttachmentView>::empty(),
            },
        ),
{
    let mut attachments: Vec<PostmarkAttachment> = Vec::new();
    match &req.attachments {
        Some(atts) => {
            let ghost av = atts.deep_view();
            let mut i: usize = 0;
            proof {
                assert(attachments.deep_view() =~= postmark_attachments_of(av.take(0)));
            }
            while i < atts.len()
                invariant
                    i <= atts.len(),
                    av == atts.deep_view(),
                    av.len() == atts.len(),
                    attachments.deep_view() == postmark_attachments_of(av.take(i as int)),
                decreases atts.len() - i,
            {
                let entry = PostmarkAttachment {
                    name: atts[i].filename.clone(),
                    content: b64_standard_encode(atts[i].content.as_slice()),
                    content_type: atts[i].mime_type.clone(),
                };
                let ghost prev = attachments.deep_view();
                attachments.push(entry);
                proof {
                    assert(attachments.deep_view() =~= prev.push(entry@));
                    assert(prev.push(entry@) =~= postmark_attachments_of(av.take(i + 1)));
                }
                i += 1;
            }
            proof {
                assert(av.take(atts.len() as int) =~= av);
            }
        },
        None => {
            proof {
                assert(attachments.deep_view() =~= postmark_attachments_of(
                    Seq::<AttachmentView>::empty(),
                ));
            }
        },
    }
    PostmarkEmail {
        from: postmark_from_address(company),
        to: join_strings(&req.to, ","),
        cc: match &req.cc {
            Some(cc) => Some(join_strings(cc, ",")),
            None => None,
        },
        subject: req.subject.clone(),
        html_body: req.body.clone(),
        attachments,
    }
}

/// The profile the send-only provider reports: the derived sender address
/// and the company name.
pub fn postmark_profile(company: &str) -> (r: UserProfile)
    ensures
        r@.email == postmark_address_of(company@),
        r@.name matches Some(n) && n == company@,
        r@.picture is None,
{
    UserProfile { email: postmark_from_address(company), name: Some(company.to_owned()), picture: None }
}

} // verus!
