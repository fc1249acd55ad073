//! Error taxonomy of the gateway and the verified mapping from each failure
//! to the HTTP status and message the facade renders. Failures keep the
//! provider that produced them, so diagnostics stay provider-accurate.
//! Upstream faults carry the upstream HTTP status when a response arrived,
//! and `None` when the transport could not be reached at all.
use vstd::prelude::*;

verus! {

use vstd::string::StringExecFns;

/// Every failure the gateway surfaces.
#[derive(Debug, Clone, PartialEq)]
pub enum AppError {
    /// A network or API failure not tied to one provider.
    Transport { detail: String },
    /// A failure of the raw-message provider's API.
    GmailApi { status: Option<u16>, detail: String },
    /// A failure of the folder provider's API.
    OutlookApi { status: Option<u16>, detail: String },
    /// A value could not be serialized or deserialized.
    Serialization { detail: String },
    /// The request carried no usable credential.
    MissingToken,
    /// An internal failure.
    Internal { detail: String },
    /// The caller's input was rejected before any upstream call.
    BadRequest { message: String },
    /// The process configuration is unusable.
    Config { message: String },
    /// A failure of the quote backend's API.
    BubbleApi { status: Option<u16>, detail: String },
    /// An upstream could not be reached or answered unusably.
    BadGateway { message: String },
    /// The caller may not perform this operation.
    Forbidden { message: String },
    /// A raw mail envelope could not be decoded or parsed.
    Envelope { message: String },
}

/// A status number usable in an HTTP response, falling back to bad gateway
/// for out-of-range numbers.
pub open spec fn http_status_or_bad_gateway(s: u16) -> u16 {
    if 100 <= s <= 999 {
        s
    } else {
        502
    }
}

/// The HTTP status each failure is rendered with.
pub open spec fn response_status_of(e: AppError) -> u16 {
    match e {
        AppError::Transport { .. } => 502,
        AppError::GmailApi { status, .. } => match status {
            Some(s) => if s == 401 {
                401
            } else {
                http_status_or_bad_gateway(s)
            },
            None => 502,
        },
        AppError::OutlookApi { status, .. } => match status {
            Some(s) => if s == 401 {
                401
            } else {
                http_status_or_bad_gateway(s)
            },
            None => 502,
        },
        AppError::Serialization { .. } => 500,
        AppError::MissingToken => 401,
        AppError::Internal { .. } => 500,
        AppError::BadRequest { .. } => 400,
        AppError::Config { .. } => 500,
        AppError::BubbleApi { status, .. } => match status {
            Some(s) => if s == 401 {
                500
            } else if s == 404 {
                404
            } else {
                502
            },
            None => 502,
        },
        AppError::BadGateway { .. } => 502,
        AppError::Forbidden { .. } => 403,
        AppError::Envelope { .. } => 500,
    }
}

/// The message each failure is rendered with.
pub open spec fn response_message_of(e: AppError) -> Seq<char> {
    match e {
        AppError::Transport { .. } => "Network or API error"@,
        AppError::GmailApi { status, .. } => match status {
            Some(s) => if s == 401 {
                "Invalid or expired Google Token"@
            } else {
                "Gmail API returned an error"@
            },
            None => "Failed to reach Gmail API"@,
        },
        AppError::OutlookApi { status, .. } => match status {
            Some(s) => if s == 401 {
                "Invalid or expired Microsoft Token"@
            } else {
                "Outlook API returned an error"@
            },
            None => "Failed to reach Microsoft Graph API"@,
        },
        AppError::Serialization { .. } => "Internal server error"@,
        AppError::MissingToken => "Missing Authorization header"@,
        AppError::Internal { .. } => "Internal server error"@,
        AppError::BadRequest { message } => message@,
        AppError::Config { message } => message@,
        AppError::BubbleApi { status, .. } => match status {
            Some(s) => if s == 401 {
                "Bubble API Token Invalid/Expired"@
            } else if s == 404 {
                "Quote ID not found in Bubble"@
            } else {
                "Bubble API returned an error"@
            },
            None => "Failed to reach Bubble API"@,
        },
        AppError::BadGateway { message } => message@,
        AppError::Forbidden { message } => message@,
        AppError::Envelope { .. } => "Internal server error"@,
    }
}

fn clamp_status(s: u16) -> (r: u16)
    ensures
        r == http_status_or_bad_gateway(s),
{
    if 100 <= s && s <= 999 {
        s
    } else {
        502
    }
}

/// The HTTP status and message a failure is rendered with, as the facade's
/// error response builds them.
pub fn error_response_parts(e: &AppError) -> (r: (u16, String))
    ensures
        r.0 == response_status_of(*e),
        r.1@ == response_message_of(*e),
{
    match e {
        AppError::Transport { .. } => (502, "Network or API error".to_owned()),
        AppError::GmailApi { status, .. } => match status {
            Some(s) => if *s == 401 {
                (401, "Invalid or expired Google Token".to_owned())
            } else {
                (clamp_status(*s), "Gmail API returned an error".to_owned())
            },
            None => (502, "Failed to reach Gmail API".to_owned()),
        },
        AppError::OutlookApi { status, .. } => match status {
            Some(s) => if *s == 401 {
                (401, "Invalid or expired Microsoft Token".to_owned())
            } else {
                (clamp_status(*s), "Outlook API returned an error".to_owned())
            },
            None => (502, "Failed to reach Microsoft Graph API".to_owned()),
        },
        AppError::Serialization { .. } => (500, "Internal server error".to_owned()),
        AppError::MissingToken => (401, "Missing Authorization header".to_owned()),
        AppError::Internal { .. } => (500, "Internal server error".to_owned()),
        AppError::BadRequest { message } => (400, message.clone()),
        AppError::Config { message } => (500, message.clone()),
        AppError::BubbleApi { status, .. } => match status {
            Some(s) => if *s == 401 {
                (500, "Bubble API Token Invalid/Expired".to_owned())
            } else if *s == 404 {
                (404, "Quote ID not found in Bubble".to_owned())
            } else {
                (502, "Bubble API returned an error".to_owned())
            },
            None => (502, "Failed to reach Bubble API".to_owned()),
        },
        AppError::BadGateway { message } => (502, message.clone()),
        AppError::Forbidden { message } => (403, message.clone()),
        AppError::Envelope { .. } => (500, "Internal server error".to_owned()),
    }
}

/// The detail line each failure carries beside the rendered message.
pub open spec fn detail_of(e: AppError) -> Seq<char> {
    match e {
        AppError::Transport { detail } => "API error: "@ + detail@,
        AppError::GmailApi { detail, .. } => "Gmail API error: "@ + detail@,
        AppError::OutlookApi { detail, .. } => "Outlook API error: "@ + detail@,
        AppError::Serialization { detail } => "Serialization error: "@ + detail@,
        AppError::MissingToken => "Missing Token"@,
        AppError::Internal { detail } => "Internal error: "@ + detail@,
        AppError::BadRequest { message } => "Bad request: "@ + message@,
        AppError::Config { message } => "Configuration error: "@ + message@,
        AppError::BubbleApi { detail, .. } => "Bubble API error: "@ + detail@,
        AppError::BadGateway { message } => "Bad Gateway: "@ + message@,
        AppError::Forbidden { message } => "Forbidden: "@ + message@,
        AppError::Envelope { message } => "Envelope error: "@ + message@,
    }
}

fn prefixed(prefix: &str, rest: &String) -> (r: String)
    ensures
        r@ == prefix@ + rest@,
{
    let mut r = prefix.to_owned();
    r.append(rest.as_str());
    r
}

/// The detail line of a failure, for diagnostics bodies.
pub fn detail_message(e: &AppError) -> (r: String)
    ensures
        r@ == detail_of(*e),
{
    match e {
        AppError::Transport { detail } => prefixed("API error: ", detail),
        AppError::GmailApi { detail, .. } => prefixed("Gmail API error: ", detail),
        AppError::OutlookApi { detail, .. } => prefixed("Outlook API error: ", detail),
        AppError::Serialization { detail } => prefixed("Serialization error: ", detail),
        AppError::MissingToken => "Missing Token".to_owned(),
        AppError::Internal { detail } => prefixed("Internal error: ", detail),
        AppError::BadRequest { message } => prefixed("Bad request: ", message),
        AppError::Config { message } => prefixed("Configuration error: ", message),
        AppError::BubbleApi { detail, .. } => prefixed("Bubble API error: ", detail),
        AppError::BadGateway { message } => prefixed("Bad Gateway: ", message),
        AppError::Forbidden { message } => prefixed("Forbidden: ", message),
        AppError::Envelope { message } => prefixed("Envelope error: ", message),
    }
}

} // verus!
