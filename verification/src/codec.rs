//! MIME envelope codec for the raw-message provider. Encoding builds the
//! outgoing envelope text (plain, or multipart/mixed with a fixed boundary)
//! and wraps it in the URL-safe unpadded transport encoding. Decoding strips
//! tolerated `=` padding, undoes the transport encoding, parses the bytes as
//! a MIME document and resolves the canonical fields, with the documented
//! fallbacks for names and content types.
use vstd::prelude::*;

verus! {

use vstd::string::StrSliceExecFns;
use vstd::string::StringExecFns;
use crate::b64::{b64url_nopad_of, b64_standard_of, b64url_encode, b64url_decode,
    b64_standard_encode};
use crate::error::AppError;
use crate::mime_raw::{mime_parses, mime_subject_of, mime_from_of, mime_to_of, mime_date_of,
    mime_body_text_of, mime_body_html_of, mime_attachments_of, MimePartInfo, MimePartInfoView,
    mime_parse_ok, mime_subject, mime_from, mime_to, mime_date, mime_body_text, mime_body_html,
    mime_attachments};
use crate::model::{SendMessageRequest, SendMessageRequestView, CleanMessage, CleanMessageView,
    AttachmentSummary, AttachmentSummaryView, AttachmentView};
use crate::strutil::join_with;
use crate::strutil::join_strings;

/// Whether a send request carries at least one attachment.
pub open spec fn has_outgoing_attachments(req: SendMessageRequestView) -> bool {
    match req.attachments {
        Some(atts) => atts.len() > 0,
        None => false,
    }
}

/// The `To` and `Subject` header lines every envelope starts with.
pub open spec fn header_block(req: SendMessageRequestView) -> Seq<char> {
    "To: "@ + join_with(req.to, ", "@) + "\r\n"@ + "Subject: "@ + req.subject + "\r\n"@
}

/// The envelope of a request without attachments: the header block followed
/// directly by the HTML content type line and the body.
pub open spec fn plain_envelope_text(req: SendMessageRequestView) -> Seq<char> {
    header_block(req) + "Content-Type: text/html; charset=utf-8\r\n\r\n"@ + req.body
}

/// Everything of a multipart envelope up to and including the inline HTML
/// part.
pub open spec fn multipart_preamble(req: SendMessageRequestView) -> Seq<char> {
    header_block(req) + "MIME-Version: 1.0\r\n"@
        + "Content-Type: multipart/mixed; boundary=\"boundary_1234567890\"\r\n\r\n"@
        + "--boundary_1234567890\r\n"@ + "Content-Type: text/html; charset=utf-8\r\n"@
        + "Content-Disposition: inline\r\n\r\n"@ + req.body + "\r\n\r\n"@
}

/// One attachment part of a multipart envelope, its bytes base64-encoded.
pub open spec fn attachment_part_text(a: AttachmentView) -> Seq<char> {
    "--boundary_1234567890\r\n"@ + "Content-Type: "@ + a.mime_type + "; name=\""@ + a.filename
        + "\"\r\n"@ + "Content-Disposition: attachment; filename=\""@ + a.filename + "\"\r\n"@
        + "Content-Transfer-Encoding: base64\r\n\r\n"@ + b64_standard_of(a.content) + "\r\n\r\n"@
}

/// The attachment parts of a multipart envelope, in order.
pub open spec fn attachment_parts_text(atts: Seq<AttachmentView>) -> Seq<char>
    decreases atts.len(),
{
    if atts.len() == 0 {
        Seq::empty()
    } else {
        attachment_parts_text(atts.drop_last()) + attachment_part_text(atts.last())
    }
}

/// The envelope of a request with attachments.
pub open spec fn multipart_envelope_text(req: SendMessageRequestView) -> Seq<char> {
    multipart_preamble(req) + attachment_parts_text(req.attachments->0)
        + "--boundary_1234567890--"@
}

/// The complete envelope text of a send request.
pub open spec fn envelope_text(req: SendMessageRequestView) -> Seq<char> {
    if has_outgoing_attachments(req) {
        multipart_envelope_text(req)
    } else {
        plain_envelope_text(req)
    }
}

fn append_attachment_part(email: &mut String, att: &crate::model::Attachment)
    ensures
        final(email)@ == old(email)@ + attachment_part_text(att@),
{
    email.append("--boundary_1234567890\r\n");
    email.append("Content-Type: ");
    email.append(att.mime_type.as_str());
    email.append("; name=\"");
    email.append(att.filename.as_str());
    email.append("\"\r\n");
    email.append("Content-Disposition: attachment; filename=\"");
    email.append(att.filename.as_str());
    email.append("\"\r\n");
    email.append("Content-Transfer-Encoding: base64\r\n\r\n");
    let encoded = b64_standard_encode(att.content.as_slice());
    email.append(encoded.as_str());
    email.append("\r\n\r\n");
    proof {
        assert(email@ =~= old(email)@ + attachment_part_text(att@));
    }
}

/// Builds the envelope text of a send request.
pub fn build_envelope(req: &SendMessageRequest) -> (r: String)
    ensures
        r@ == envelope_text(req@),
{
    let to_header = join_strings(&req.to, ", ");
    let mut email = "To: ".to_owned();
    email.append(to_header.as_str());
    email.append("\r\n");
    email.append("Subject: ");
    email.append(req.subject.as_str());
    email.append("\r\n");
    proof {
        assert(email@ =~= header_block(req@));
    }
    let has_atts = match &req.attachments {
        Some(atts) => atts.len() > 0,
        None => false,
    };
    if has_atts {
        email.append("MIME-Version: 1.0\r\n");
        email.append("Content-Type: multipart/mixed; boundary=\"boundary_1234567890\"\r\n\r\n");
        email.append("--boundary_1234567890\r\n");
        email.append("Content-Type: text/html; charset=utf-8\r\n");
        email.append("Content-Disposition: inline\r\n\r\n");
        email.append(req.body.as_str());
        email.append("\r\n\r\n");
        proof {
            assert(email@ =~= multipart_preamble(req@));
        }
        if let Some(attachments) = &req.attachments {
            let ghost atts = attachments.deep_view();
            let mut i: usize = 0;
            proof {
                assert(attachment_parts_text(atts.take(0)) =~= Seq::<char>::empty());
                assert(email@ =~= multipart_preamble(req@) + attachment_parts_text(atts.take(0)));
            }
            while i < attachments.len()
                invariant
                    i <= attachments.len(),
                    atts == attachments.deep_view(),
                    atts.len() == attachments.len(),
                    email@ == multipart_preamble(req@) + attachment_parts_text(
                        atts.take(i as int),
                    ),
                decreases attachments.len() - i,
            {
                append_attachment_part(&mut email, &attachments[i]);
                proof {
                    assert(atts.take(i + 1).drop_last() =~= atts.take(i as int));
                    assert(atts.take(i + 1).last() == atts[i as int]);
                    assert(email@ =~= multipart_preamble(req@) + attachment_parts_text(
                        atts.take(i + 1),
                    ));
                }
                i += 1;
            }
            proof {
                assert(atts.take(attachments.len() as int) =~= atts);
            }
        }
        email.append("--boundary_1234567890--");
        proof {
            assert(email@ =~= envelope_text(req@));
        }
    } else {
        email.append("Content-Type: text/html; charset=utf-8\r\n\r\n");
        email.append(req.body.as_str());
        proof {
            assert(email@ =~= envelope_text(req@));
        }
    }
    email
}

/// Builds the transport payload of a send request: the envelope text,
/// UTF-8 encoded, in URL-safe unpadded base64.
pub fn encode_send_envelope(req: &SendMessageRequest) -> (r: String)
    ensures
        r@ == b64url_nopad_of(vstd::utf8::encode_utf8(envelope_text(req@))),
{
    let envelope = build_envelope(req);
    b64url_encode(envelope.as_str().as_bytes())
}

/// `s` with every trailing `=` removed.
pub open spec fn strip_eq_suffix(s: Seq<char>) -> Seq<char>
    decreases s.len(),
{
    if s.len() > 0 && s.last() == '=' {
        strip_eq_suffix(s.drop_last())
    } else {
        s
    }
}

/// Removes trailing `=` padding, tolerated from upstreams that emit it.
pub fn strip_trailing_eq<'a>(s: &'a str) -> (r: &'a str)
    ensures
        r@ == strip_eq_suffix(s@),
{
    let len = s.unicode_len();
    let mut end = len;
    proof {
        assert(s@.take(len as int) =~= s@);
    }
    while end > 0 && s.get_char(end - 1) == '='
        invariant
            end <= len,
            len == s@.len(),
            strip_eq_suffix(s@) == strip_eq_suffix(s@.take(end as int)),
        decreases end,
    {
        proof {
            assert(s@.take(end as int).last() == '=');
            assert(s@.take(end as int).drop_last() =~= s@.take(end - 1));
        }
        end -= 1;
    }
    proof {
        if end > 0 {
            assert(s@.take(end as int).last() == s@[end - 1]);
        }
        assert(strip_eq_suffix(s@.take(end as int)) == s@.take(end as int));
    }
    let r = s.substring_char(0, end);
    proof {
        assert(r@ =~= s@.take(end as int));
    }
    r
}

/// Round-trip law, transport layer: stripping tolerated `=` padding leaves
/// a padding-free payload — such as any payload the encoder produces —
/// unchanged, so decoding undoes exactly the transport encoding.
pub proof fn lemma_unpadded_strip_identity(s: Seq<char>)
    requires
        forall|i: int| 0 <= i < s.len() ==> s[i] != '=',
    ensures
        strip_eq_suffix(s) == s,
{
}

/// The filename an attachment part resolves to: explicit attachment name,
/// else the content type's "name" parameter, else "unnamed".
pub open spec fn resolved_filename(p: MimePartInfoView) -> Seq<char> {
    match p.attachment_name {
        Some(n) => n,
        None => match p.type_name_param {
            Some(n) => n,
            None => "unnamed"@,
        },
    }
}

/// The content type an attachment part resolves to: `type/subtype` with the
/// subtype defaulting to "octet-stream", or "application/octet-stream" when
/// the part has no content type at all.
pub open spec fn resolved_content_type(p: MimePartInfoView) -> Seq<char> {
    match p.main_type {
        Some(t) => t + "/"@ + match p.sub_type {
            Some(s) => s,
            None => "octet-stream"@,
        },
        None => "application/octet-stream"@,
    }
}

/// The canonical attachment summary of one parsed part.
pub open spec fn resolved_attachment(p: MimePartInfoView) -> AttachmentSummaryView {
    AttachmentSummaryView {
        filename: resolved_filename(p),
        content_type: resolved_content_type(p),
        size: p.size,
        id: p.content_id,
    }
}

/// The canonical attachment summaries of a parsed part sequence.
pub open spec fn resolved_attachments(ps: Seq<MimePartInfoView>) -> Seq<AttachmentSummaryView> {
    ps.map_values(|p: MimePartInfoView| resolved_attachment(p))
}

/// Resolves one parsed attachment part.
pub fn resolve_attachment(p: MimePartInfo) -> (r: AttachmentSummary)
    ensures
        r@ == resolved_attachment(p@),
{
    let filename = match p.attachment_name {
        Some(n) => n,
        None => match p.type_name_param {
            Some(n) => n,
            None => "unnamed".to_owned(),
        },
    };
    let content_type = match p.main_type {
        Some(t) => {
            let mut ct = t;
            ct.append("/");
            match p.sub_type {
                Some(s) => ct.append(s.as_str()),
                None => ct.append("octet-stream"),
            }
            ct
        },
        None => "application/octet-stream".to_owned(),
    };
    AttachmentSummary { filename, content_type, size: p.size, id: p.content_id }
}

/// Resolves every parsed attachment part, in order.
pub fn resolve_attachments(ps: Vec<MimePartInfo>) -> (r: Vec<AttachmentSummary>)
    ensures
        r.deep_view() == resolved_attachments(ps.deep_view()),
{
    let ghost pv = ps.deep_view();
    let mut out: Vec<AttachmentSummary> = Vec::new();
    let rest = ps;
    let mut i: usize = 0;
    proof {
        assert(out.deep_view() =~= resolved_attachments(pv.take(0)));
    }
    while i < rest.len()
        invariant
            i <= rest.len(),
            pv == rest.deep_view(),
            pv.len() == rest.len(),
            out.deep_view() == resolved_attachments(pv.take(i as int)),
        decreases rest.len() - i,
    {
        let p = MimePartInfo {
            attachment_name: crate::model::clone_opt_string(&rest[i].attachment_name),
            type_name_param: crate::model::clone_opt_string(&rest[i].type_name_param),
            main_type: crate::model::clone_opt_string(&rest[i].main_type),
            sub_type: crate::model::clone_opt_string(&rest[i].sub_type),
            size: rest[i].size,
            content_id: crate::model::clone_opt_string(&rest[i].content_id),
        };
        proof {
            assert(p@ == pv[i as int]);
        }
        let resolved = resolve_attachment(p);
        let ghost prev = out.deep_view();
        out.push(resolved);
        proof {
            assert(out.deep_view() =~= prev.push(resolved@));
            assert(prev.push(resolved@) =~= resolved_attachments(pv.take(i + 1)));
        }
        i += 1;
    }
    proof {
        assert(pv.take(rest.len() as int) =~= pv);
    }
    out
}

/// The canonical "from" a parsed envelope resolves to: the first mailbox's
/// display name, else its address, else "Unknown"; absent when the envelope
/// has no "from" field.
pub open spec fn resolved_from(f: Option<(Option<Seq<char>>, Option<Seq<char>>)>) -> Option<
    Seq<char>,
> {
    match f {
        None => None,
        Some(parts) => Some(
            match parts.0 {
                Some(n) => n,
                None => match parts.1 {
                    Some(a) => a,
                    None => "Unknown"@,
                },
            },
        ),
    }
}

/// The canonical "to" a parsed envelope resolves to: the first mailbox's
/// address, else "Unknown"; absent when the envelope has no "to" field.
pub open spec fn resolved_to(t: Option<Option<Seq<char>>>) -> Option<Seq<char>> {
    match t {
        None => None,
        Some(a) => Some(
            match a {
                Some(x) => x,
                None => "Unknown"@,
            },
        ),
    }
}

fn resolve_from(f: Option<(Option<String>, Option<String>)>) -> (r: Option<String>)
    ensures
        r.deep_view() == resolved_from(f.deep_view()),
{
    match f {
        None => None,
        Some((name, addr)) => Some(
            match name {
                Some(n) => n,
                None => match addr {
                    Some(a) => a,
                    None => "Unknown".to_owned(),
                },
            },
        ),
    }
}

fn resolve_to(t: Option<Option<String>>) -> (r: Option<String>)
    ensures
        r.deep_view() == resolved_to(t.deep_view()),
{
    match t {
        None => None,
        Some(a) => Some(
            match a {
                Some(x) => x,
                None => "Unknown".to_owned(),
            },
        ),
    }
}

/// The canonical message a parsed envelope resolves to.
pub open spec fn decoded_clean_message(id: Seq<char>, snippet: Seq<char>, b: Seq<u8>)
    -> CleanMessageView {
    CleanMessageView {
        id: id,
        subject: mime_subject_of(b),
        from: resolved_from(mime_from_of(b)),
        to: resolved_to(mime_to_of(b)),
        date: mime_date_of(b),
        snippet: snippet,
        body_text: mime_body_text_of(b),
        body_html: mime_body_html_of(b),
        attachments: resolved_attachments(mime_attachments_of(b)),
    }
}

/// Decodes an upstream raw envelope: strips tolerated `=` padding, undoes
/// the URL-safe transport encoding, parses the bytes as MIME, and resolves
/// the canonical fields. A payload that is not a canonical encoding, or
/// whose bytes do not parse, is an envelope failure, distinct from every
/// upstream failure.
pub fn decode_raw_message(id: &str, snippet: &str, raw_b64: &str) -> (r: Result<
    CleanMessage,
    AppError,
>)
    ensures
        (r is Ok <==> exists|b: Seq<u8>|
            strip_eq_suffix(raw_b64@) == b64url_nopad_of(b) && mime_parses(b)),
        forall|b: Seq<u8>|
            strip_eq_suffix(raw_b64@) == b64url_nopad_of(b) && mime_parses(b) ==> (r matches Ok(c)
                && c@ == decoded_clean_message(id@, snippet@, b)),
        r is Err ==> r->Err_0 matches AppError::Envelope { .. },
{
    let sanitized = strip_trailing_eq(raw_b64);
    let decoded = b64url_decode(sanitized);
    let bytes = match decoded {
        Some(b) => b,
        None => {
            return Err(
                AppError::Envelope { message: "invalid base64 in raw envelope".to_owned() },
            );
        },
    };
    if !mime_parse_ok(bytes.as_slice()) {
        proof {
            assert forall|b: Seq<u8>|
                strip_eq_suffix(raw_b64@) == b64url_nopad_of(b) implies !mime_parses(b) by {
                assert(b == bytes@);
            }
        }
        return Err(AppError::Envelope { message: "unparseable mime envelope".to_owned() });
    }
    let clean = CleanMessage {
        id: id.to_owned(),
        subject: mime_subject(bytes.as_slice()),
        from: resolve_from(mime_from(bytes.as_slice())),
        to: resolve_to(mime_to(bytes.as_slice())),
        date: mime_date(bytes.as_slice()),
        snippet: snippet.to_owned(),
        body_text: mime_body_text(bytes.as_slice()),
        body_html: mime_body_html(bytes.as_slice()),
        attachments: resolve_attachments(mime_attachments(bytes.as_slice())),
    };
    proof {
        assert(clean@ == decoded_clean_message(id@, snippet@, bytes@));
        assert forall|b: Seq<u8>|
            strip_eq_suffix(raw_b64@) == b64url_nopad_of(b) && mime_parses(b) implies b
            == bytes@ by {}
    }
    Ok(clean)
}

} // verus!
