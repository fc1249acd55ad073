//! Raw-message adapter: list planning against the pagination cursor cache,
//! upstream URL building (always requesting the raw representation for
//! fetches), metadata summarizing with the recursive attachment-presence
//! scan, and the cursor bookkeeping after a successful list call.
use vstd::prelude::*;

verus! {

use vstd::string::StrSliceExecFns;
use vstd::string::StringExecFns;
use vstd::string::StringSliceAdditionalSpecFns;
use crate::cache::{CursorCache, fingerprint, fingerprint_of};
use crate::model::{ListParams, ListParamsView, ListResponse, MessageSummary};
use crate::strutil::{dec_of, join_with, split_commas, trim_ws, u32_to_dec, split_csv, trim_ascii,
    join_strings, contains_string};

/// The adapter for the raw-message provider.
pub struct GmailProvider;

impl GmailProvider {
    /// A new adapter; it holds no state of its own.
    pub fn new() -> (r: GmailProvider)
        ensures
            r == (GmailProvider {  }),
    {
        GmailProvider {  }
    }
}

/// The result a free-text query is sent upstream as. Relies on
/// urlencoding::encode, which percent-encodes every byte that is not
/// alphanumeric or one of `-`, `_`, `.`, `~`; the result depends on the
/// characters alone.
pub uninterp spec fn url_encoded_of(s: Seq<char>) -> Seq<char>;

/// Relies on urlencoding::encode for the named result above.
#[verifier::external_body]
fn url_encode(s: &str) -> (r: String)
    ensures
        r@ == url_encoded_of(s@),
{
    urlencoding::encode(s).into_owned()
}

/// The page a list query addresses, first page unless stated.
pub open spec fn page_of(params: ListParamsView) -> u32 {
    match params.page_number {
        Some(p) => p,
        None => 1,
    }
}

/// A list query that must be refused: it addresses a page past the first,
/// names no explicit cursor, and the cache holds no cursor for it — pages
/// must be visited in order from page one.
pub open spec fn out_of_order(
    cache: Map<(Seq<char>, u32), Seq<char>>,
    fp: Seq<char>,
    params: ListParamsView,
) -> bool {
    page_of(params) > 1 && params.page_token is None && !cache.contains_key(
        (fp, page_of(params)),
    )
}

/// Page-order law: before any page of a query has been listed, a request
/// for a page past the first, without an explicit cursor, is refused — it
/// yields the empty warning response, never stale data.
pub proof fn lemma_page_order(
    cache: Map<(Seq<char>, u32), Seq<char>>,
    fp: Seq<char>,
    params: ListParamsView,
)
    requires
        cache == Map::<(Seq<char>, u32), Seq<char>>::empty(),
        page_of(params) > 1,
        params.page_token is None,
    ensures
        out_of_order(cache, fp, params),
{
}

/// The cursor a list call proceeds upstream with: none on the first page,
/// the caller's explicit cursor if one is named, else the cached one.
pub open spec fn resolved_cursor_of(
    cache: Map<(Seq<char>, u32), Seq<char>>,
    fp: Seq<char>,
    params: ListParamsView,
) -> Option<Seq<char>> {
    if page_of(params) <= 1 {
        None
    } else if params.page_token is Some {
        params.page_token
    } else if cache.contains_key((fp, page_of(params))) {
        Some(cache[(fp, page_of(params))])
    } else {
        None
    }
}

/// The base endpoint of the raw-message provider's message listing.
pub open spec fn gmail_list_base() -> Seq<char> {
    "https://gmail.googleapis.com/gmail/v1/users/me/messages"@
}

/// The query parts of a list call, in the order they are sent: page size,
/// encoded free text, cursor, then one label part per comma-separated,
/// trimmed piece of the label filter.
pub open spec fn gmail_query_parts(params: ListParamsView, cursor: Option<Seq<char>>) -> Seq<
    Seq<char>,
> {
    (match params.max_results {
        Some(m) => seq!["maxResults="@ + dec_of(m as int)],
        None => Seq::empty(),
    }) + (match params.q {
        Some(q) => seq!["q="@ + url_encoded_of(q)],
        None => Seq::empty(),
    }) + (match cursor {
        Some(t) => seq!["pageToken="@ + t],
        None => Seq::empty(),
    }) + (match params.label_ids {
        Some(l) => split_commas(l).map_values(|p: Seq<char>| "labelIds="@ + trim_ws(p)),
        None => Seq::empty(),
    })
}

/// The full URL of a list call.
pub open spec fn gmail_list_url_of(params: ListParamsView, cursor: Option<Seq<char>>) -> Seq<
    char,
> {
    let parts = gmail_query_parts(params, cursor);
    if parts.len() == 0 {
        gmail_list_base()
    } else {
        gmail_list_base() + "?"@ + join_with(parts, "&"@)
    }
}

/// Builds the URL of a list call.
pub fn build_gmail_list_url(params: &ListParams, cursor: Option<&String>) -> (r: String)
    ensures
        r@ == gmail_list_url_of(params@, cursor.deep_view()),
{
    let mut parts: Vec<String> = Vec::new();
    match params.max_results {
        Some(m) => {
            let mut part = "maxResults=".to_owned();
            let ms = u32_to_dec(m);
            part.append(ms.as_str());
            parts.push(part);
        },
        None => (),
    }
    match &params.q {
        Some(q) => {
            let mut part = "q=".to_owned();
            let enc = url_encode(q.as_str());
            part.append(enc.as_str());
            parts.push(part);
        },
        None => (),
    }
    match cursor {
        Some(t) => {
            let mut part = "pageToken=".to_owned();
            part.append(t.as_str());
            parts.push(part);
        },
        None => (),
    }
    match &params.label_ids {
        Some(l) => {
            let pieces = split_csv(l.as_str());
            let ghost pv = pieces.deep_view();
            let ghost before = parts.deep_view();
            let mut i: usize = 0;
            proof {
                assert(before + pv.take(0).map_values(|p: Seq<char>| "labelIds="@ + trim_ws(p))
                    =~= before);
            }
            while i < pieces.len()
                invariant
                    i <= pieces.len(),
                    pv == pieces.deep_view(),
                    pv.len() == pieces.len(),
                    parts.deep_view() == before + pv.take(i as int).map_values(
                        |p: Seq<char>| "labelIds="@ + trim_ws(p),
                    ),
                decreases pieces.len() - i,
            {
                let mut part = "labelIds=".to_owned();
                let trimmed = trim_ascii(pieces[i].as_str());
                part.append(trimmed.as_str());
                let ghost prev = parts.deep_view();
                parts.push(part);
                proof {
                    assert(parts.deep_view() =~= prev.push(part@));
                    assert(pv.take(i + 1).drop_last() =~= pv.take(i as int));
                    assert(pv.take(i + 1).last() == pv[i as int]);
                    assert(parts.deep_view() =~~= before + pv.take(i + 1).map_values(
                        |p: Seq<char>| "labelIds="@ + trim_ws(p),
                    ));
                }
                i += 1;
            }
            proof {
                assert(pv.take(pieces.len() as int) =~= pv);
            }
        },
        None => (),
    }
    proof {
        assert(parts.deep_view() =~~= gmail_query_parts(params@, cursor.deep_view()));
    }
    if parts.len() == 0 {
        "https://gmail.googleapis.com/gmail/v1/users/me/messages".to_owned()
    } else {
        let mut url = "https://gmail.googleapis.com/gmail/v1/users/me/messages".to_owned();
        url.append("?");
        let joined = join_strings(&parts, "&");
        url.append(joined.as_str());
        proof {
            assert(url@ =~= gmail_list_url_of(params@, cursor.deep_view()));
        }
        url
    }
}

/// The URL a single message is fetched at, requesting the upstream's raw
/// representation.
pub fn gmail_message_url(id: &str) -> (r: String)
    ensures
        r@ == "https://gmail.googleapis.com/gmail/v1/users/me/messages/"@ + id@
            + "?format=raw"@,
{
    let mut url = "https://gmail.googleapis.com/gmail/v1/users/me/messages/".to_owned();
    url.append(id);
    url.append("?format=raw");
    proof {
        assert(url@ =~= "https://gmail.googleapis.com/gmail/v1/users/me/messages/"@ + id@
            + "?format=raw"@);
    }
    url
}

/// The URL a message's metadata is fetched at, asking only for the headers
/// the summary reads.
pub fn gmail_metadata_url(id: &str) -> (r: String)
    ensures
        r@ == "https://gmail.googleapis.com/gmail/v1/users/me/messages/"@ + id@
            + "?format=metadata&metadataHeaders=Subject&metadataHeaders=From&metadataHeaders=Date"@,
{
    let mut url = "https://gmail.googleapis.com/gmail/v1/users/me/messages/".to_owned();
    url.append(id);
    url.append("?format=metadata&metadataHeaders=Subject&metadataHeaders=From&metadataHeaders=Date");
    proof {
        assert(url@ =~= "https://gmail.googleapis.com/gmail/v1/users/me/messages/"@ + id@
            + "?format=metadata&metadataHeaders=Subject&metadataHeaders=From&metadataHeaders=Date"@);
    }
    url
}

/// The URL a thread's message ids are fetched at.
pub fn gmail_thread_url(thread_id: &str) -> (r: String)
    ensures
        r@ == "https://gmail.googleapis.com/gmail/v1/users/me/threads/"@ + thread_id@
            + "?format=minimal"@,
{
    let mut url = "https://gmail.googleapis.com/gmail/v1/users/me/threads/".to_owned();
    url.append(thread_id);
    url.append("?format=minimal");
    proof {
        assert(url@ =~= "https://gmail.googleapis.com/gmail/v1/users/me/threads/"@ + thread_id@
            + "?format=minimal"@);
    }
    url
}

/// The URL send calls post to.
pub fn gmail_send_url() -> (r: String)
    ensures
        r@ == "https://gmail.googleapis.com/gmail/v1/users/me/messages/send"@,
{
    "https://gmail.googleapis.com/gmail/v1/users/me/messages/send".to_owned()
}

/// The warning a refused out-of-order page request carries.
pub open spec fn page_order_warning() -> Seq<char> {
    "Page token not found. Please navigate sequentially from Page 1."@
}

/// The empty response a refused out-of-order page request yields: no
/// messages, a zero estimate, and the page-order warning.
pub fn out_of_order_response(page: u32) -> (r: ListResponse)
    ensures
        r@.messages.len() == 0,
        r@.next_page_token is None,
        r@.page == page,
        r@.next_page is None,
        r@.result_size_estimate == Some(0u64),
        r@.warning matches Some(w) && w == page_order_warning(),
{
    ListResponse {
        messages: Vec::new(),
        next_page_token: None,
        page,
        next_page: None,
        result_size_estimate: Some(0),
        warning: Some(
            "Page token not found. Please navigate sequentially from Page 1.".to_owned(),
        ),
    }
}

/// What a list call does before going upstream: refuse the query, or fetch
/// one URL.
pub enum GmailListPlan {
    Refuse(ListResponse),
    Fetch { url: String, page: u32, fingerprint: String },
}

/// Plans a list call against the cursor cache: an out-of-order query is
/// refused with the empty warning response; any other query resolves its
/// cursor (none on page one, the explicit cursor first, else the cached
/// one) and is sent to the listing URL built from the query.
pub fn plan_gmail_list(cache: &CursorCache, credential: &str, params: &ListParams) -> (r:
    GmailListPlan)
    ensures
        ({
            let fp = fingerprint_of(credential.spec_bytes(), params@);
            let page = page_of(params@);
            if out_of_order(cache@, fp, params@) {
                r matches GmailListPlan::Refuse(resp) && resp@.messages.len() == 0
                    && resp@.result_size_estimate == Some(0u64) && resp@.page == page
                    && (resp@.warning matches Some(w) && w == page_order_warning())
            } else {
                r matches GmailListPlan::Fetch { url, page: p, fingerprint: f } && p == page
                    && f@ == fp && url@ == gmail_list_url_of(
                    params@,
                    resolved_cursor_of(cache@, fp, params@),
                )
            }
        }),
{
    let fp = fingerprint(credential, params);
    let page = match params.page_number {
        Some(p) => p,
        None => 1,
    };
    let cursor: Option<String> = if page <= 1 {
        None
    } else {
        match &params.page_token {
            Some(t) => Some(t.clone()),
            None => {
                match cache.lookup(fp.as_str(), page) {
                    Some(c) => Some(c),
                    None => {
                        return GmailListPlan::Refuse(out_of_order_response(page));
                    },
                }
            },
        }
    };
    let url = build_gmail_list_url(params, cursor.as_ref());
    GmailListPlan::Fetch { url, page, fingerprint: fp }
}

/// Records the forward look-ahead cursor after a successful list call: a
/// "more results" cursor is stored for the following page; without one the
/// cache is untouched.
pub fn record_next_cursor(cache: &mut CursorCache, fp: &str, page: u32, next: Option<&str>)
    requires
        page < u32::MAX,
    ensures
        match next {
            Some(t) => final(cache)@ == old(cache)@.insert((fp@, (page + 1) as u32), t@),
            None => final(cache)@ == old(cache)@,
        },
{
    match next {
        Some(t) => cache.store(fp, page + 1, t.to_owned()),
        None => (),
    }
}

/// One header of a metadata response.
pub struct MetadataHeader {
    pub name: String,
    pub value: String,
}

pub ghost struct MetadataHeaderView {
    pub name: Seq<char>,
    pub value: Seq<char>,
}

impl View for MetadataHeader {
    type V = MetadataHeaderView;

    open spec fn view(&self) -> MetadataHeaderView {
        MetadataHeaderView { name: self.name@, value: self.value@ }
    }
}

impl DeepView for MetadataHeader {
    type V = MetadataHeaderView;

    open spec fn deep_view(&self) -> MetadataHeaderView {
        self.view()
    }
}

/// The value of the first header with the given name, if any.
pub open spec fn first_header_value(hs: Seq<MetadataHeaderView>, name: Seq<char>) -> Option<
    Seq<char>,
>
    decreases hs.len(),
{
    if hs.len() == 0 {
        None
    } else if hs[0].name == name {
        Some(hs[0].value)
    } else {
        first_header_value(hs.drop_first(), name)
    }
}

/// Finds the value of the first header with the given name.
pub fn find_header_value(hs: &Vec<MetadataHeader>, name: &str) -> (r: Option<String>)
    ensures
        r.deep_view() == first_header_value(hs.deep_view(), name@),
{
    let ghost hv = hs.deep_view();
    let mut i: usize = 0;
    proof {
        assert(hv.skip(0) =~= hv);
    }
    while i < hs.len()
        invariant
            i <= hs.len(),
            hv == hs.deep_view(),
            hv.len() == hs.len(),
            first_header_value(hv, name@) == first_header_value(hv.skip(i as int), name@),
        decreases hs.len() - i,
    {
        proof {
            assert(hv.skip(i as int)[0] == hv[i as int]);
            assert(hv.skip(i as int).drop_first() =~= hv.skip(i + 1));
        }
        if crate::strutil::str_eq(hs[i].name.as_str(), name) {
            return Some(hs[i].value.clone());
        }
        i += 1;
    }
    proof {
        assert(hv.skip(hs.len() as int) =~= Seq::<MetadataHeaderView>::empty());
    }
    None
}

/// One node of the part tree a metadata response describes: a filename, if
/// the part carries one, and the child parts.
pub struct PartNode {
    pub filename: Option<String>,
    pub parts: Vec<PartNode>,
}

/// Whether a part tree marks the message as carrying attachments: the node
/// itself has a non-empty filename, or some descendant has.
pub open spec fn tree_has_attachment(p: PartNode) -> bool
    decreases p,
{
    (match p.filename {
        Some(f) => f@.len() > 0,
        None => false,
    }) || exists|i: int|
        0 <= i < p.parts@.len() && tree_has_attachment(#[trigger] p.parts@[i])
}

/// Whether no node of a part tree carries a non-empty filename.
pub open spec fn tree_all_filenames_empty(p: PartNode) -> bool
    decreases p,
{
    (match p.filename {
        Some(f) => f@.len() == 0,
        None => true,
    }) && forall|i: int|
        0 <= i < p.parts@.len() ==> tree_all_filenames_empty(#[trigger] p.parts@[i])
}

/// Attachment-detection law, negative direction: a part tree without a
/// non-empty filename anywhere never marks the message as carrying
/// attachments.
pub proof fn lemma_no_filename_no_attachment(p: PartNode)
    requires
        tree_all_filenames_empty(p),
    ensures
        !tree_has_attachment(p),
    decreases p,
{
    assert forall|i: int| 0 <= i < p.parts@.len() implies !tree_has_attachment(
        #[trigger] p.parts@[i],
    ) by {
        lemma_no_filename_no_attachment(p.parts@[i]);
    }
}

/// Walks the part tree of a metadata response: reports whether any part, at
/// any depth, carries a non-empty filename.
pub fn has_attachments_in_payload(p: &PartNode) -> (r: bool)
    ensures
        r == tree_has_attachment(*p),
    decreases *p,
{
    match &p.filename {
        Some(f) => {
            if !f.as_str().is_empty() {
                return true;
            }
        },
        None => (),
    }
    let mut i: usize = 0;
    while i < p.parts.len()
        invariant
            i <= p.parts.len(),
            forall|j: int| 0 <= j < i ==> !tree_has_attachment(#[trigger] p.parts@[j]),
        decreases p.parts.len() - i,
    {
        if has_attachments_in_payload(&p.parts[i]) {
            return true;
        }
        i += 1;
    }
    false
}

/// Everything of a metadata response the summary reads.
pub struct GmailMetadata {
    pub headers: Vec<MetadataHeader>,
    pub label_ids: Vec<String>,
    pub snippet: String,
    pub payload: PartNode,
}

/// Summarizes a metadata response: subject, sender and date from the first
/// matching headers, unread from the label ids, and attachment presence
/// from the part tree. A summary for one message carries no thread count.
pub fn summarize_metadata(id: &str, thread_id: &str, meta: &GmailMetadata) -> (r: MessageSummary)
    ensures
        r@.id == id@,
        r@.thread_id == thread_id@,
        r@.snippet == meta.snippet@,
        r@.subject == first_header_value(meta.headers.deep_view(), "Subject"@),
        r@.from == first_header_value(meta.headers.deep_view(), "From"@),
        r@.date == first_header_value(meta.headers.deep_view(), "Date"@),
        r@.unread == meta.label_ids.deep_view().contains("UNREAD"@),
        r@.has_attachments == tree_has_attachment(meta.payload),
        r@.messages_in_thread is None,
{
    MessageSummary {
        id: id.to_owned(),
        thread_id: thread_id.to_owned(),
        snippet: meta.snippet.clone(),
        subject: find_header_value(&meta.headers, "Subject"),
        from: find_header_value(&meta.headers, "From"),
        date: find_header_value(&meta.headers, "Date"),
        unread: contains_string(&meta.label_ids, "UNREAD"),
        has_attachments: has_attachments_in_payload(&meta.payload),
        messages_in_thread: None,
    }
}


/// Assembles the canonical list response after the upstream call and the
/// fan-out: the surviving summaries, collapsed by conversation when asked,
/// the upstream's forward cursor, and the page bookkeeping.
pub fn assemble_gmail_list(
    page: u32,
    next_token: Option<String>,
    estimate: Option<u64>,
    summaries: Vec<MessageSummary>,
    collapse: bool,
) -> (r: ListResponse)
    requires
        page < u32::MAX,
    ensures
        collapse ==> crate::aggregate::collapsed_of(summaries.deep_view(), r@.messages),
        !collapse ==> r@.messages == summaries.deep_view(),
        r@.next_page_token == next_token.deep_view(),
        r@.page == page,
        r@.next_page == Some((page + 1) as u32),
        r@.result_size_estimate == estimate,
        r@.warning is None,
{
    let messages = if collapse {
        crate::aggregate::collapse_threads(summaries)
    } else {
        summaries
    };
    ListResponse {
        messages,
        next_page_token: next_token,
        page,
        next_page: Some(page + 1),
        result_size_estimate: estimate,
        warning: None,
    }
}

} // verus!
