//! Gateway facade: selects an adapter once per request by a pure function
//! of the request's provider parameter, and extracts the upstream
//! credential a request carries.
use vstd::prelude::*;

verus! {

use vstd::string::StrSliceExecFns;
use vstd::string::StringExecFns;
use crate::error::AppError;
use crate::model::{AuthLevel, Config, ProviderParams};
use crate::strutil::{has_prefix, split_commas, str_eq, str_starts_with, trim_ws, trim_ascii};

/// The closed set of providers the gateway dispatches to.
#[derive(Clone, Copy, Debug, PartialEq, Eq, Structural)]
pub enum ProviderKind {
    Gmail,
    Outlook,
    Postmark,
}

/// The adapter a provider parameter selects: the folder adapter under
/// either of its two names, the transactional sender by name, and the
/// raw-message adapter for everything else, absent values included.
pub open spec fn provider_of(name: Option<Seq<char>>) -> ProviderKind {
    match name {
        Some(n) => if n == "outlook"@ || n == "microsoft"@ {
            ProviderKind::Outlook
        } else if n == "postmark"@ {
            ProviderKind::Postmark
        } else {
            ProviderKind::Gmail
        },
        None => ProviderKind::Gmail,
    }
}

/// Selects the adapter a request addresses.
pub fn select_provider(params: &ProviderParams) -> (r: ProviderKind)
    ensures
        r == provider_of(params.provider.deep_view()),
{
    match &params.provider {
        Some(n) => {
            if str_eq(n.as_str(), "outlook") || str_eq(n.as_str(), "microsoft") {
                ProviderKind::Outlook
            } else if str_eq(n.as_str(), "postmark") {
                ProviderKind::Postmark
            } else {
                ProviderKind::Gmail
            }
        },
        None => ProviderKind::Gmail,
    }
}

/// Parses the provider of a quote-send request, where only the three exact
/// names are accepted.
pub fn parse_quote_provider(name: &str) -> (r: Result<ProviderKind, AppError>)
    ensures
        name@ == "gmail"@ ==> r == Ok::<ProviderKind, AppError>(ProviderKind::Gmail),
        name@ == "outlook"@ ==> r == Ok::<ProviderKind, AppError>(ProviderKind::Outlook),
        name@ == "postmark"@ ==> r == Ok::<ProviderKind, AppError>(ProviderKind::Postmark),
        name@ != "gmail"@ && name@ != "outlook"@ && name@ != "postmark"@ ==> (r matches Err(e)
            && e matches AppError::BadRequest { message } && message@
            == "Invalid provider. Use 'gmail', 'outlook', or 'postmark'"@),
{
    proof {
        broadcast use vstd::string::group_string_axioms;

        reveal_strlit("gmail");
        reveal_strlit("outlook");
        reveal_strlit("postmark");
        assert("gmail"@.len() == 5 && "outlook"@.len() == 7 && "postmark"@.len() == 8);
    }
    if str_eq(name, "gmail") {
        Ok(ProviderKind::Gmail)
    } else if str_eq(name, "outlook") {
        Ok(ProviderKind::Outlook)
    } else if str_eq(name, "postmark") {
        Ok(ProviderKind::Postmark)
    } else {
        Err(
            AppError::BadRequest {
                message: "Invalid provider. Use 'gmail', 'outlook', or 'postmark'".to_owned(),
            },
        )
    }
}

/// `s` with every leading `"Bearer "` marker removed.
pub open spec fn strip_bearer(s: Seq<char>) -> Seq<char>
    decreases s.len(),
{
    if has_prefix(s, "Bearer "@) && "Bearer "@.len() > 0 {
        strip_bearer(s.skip("Bearer "@.len() as int))
    } else {
        s
    }
}

fn strip_bearer_exec(s: &str) -> (r: String)
    ensures
        r@ == strip_bearer(s@),
{
    proof {
        reveal_strlit("Bearer ");
    }
    let mut start: usize = 0;
    let len = s.unicode_len();
    proof {
        assert(s@.skip(0) =~= s@);
    }
    loop
        invariant
            start <= len,
            len == s@.len(),
            strip_bearer(s@) == strip_bearer(s@.skip(start as int)),
        decreases len - start,
    {
        let rest = s.substring_char(start, len);
        proof {
            reveal_strlit("Bearer ");
            assert(rest@ =~= s@.skip(start as int));
        }
        if str_starts_with(rest, "Bearer ") {
            proof {
                assert(s@.skip(start as int).skip(7) =~= s@.skip(start + 7));
            }
            start += 7;
        } else {
            proof {
                assert(strip_bearer(s@.skip(start as int)) == s@.skip(start as int));
            }
            return rest.to_owned();
        }
    }
}

/// The raw credential a request selects: the authorization header with its
/// bearer markers stripped, else the legacy header.
pub open spec fn selected_token(auth: Option<Seq<char>>, legacy: Option<Seq<char>>) -> Option<
    Seq<char>,
> {
    match auth {
        Some(a) => Some(strip_bearer(a)),
        None => legacy,
    }
}

/// Extracts the upstream credential of a request from its authorization
/// header (bearer markers stripped) or the legacy token header; the
/// selected value is trimmed, and a request without a non-empty credential
/// is refused.
pub fn extract_bearer_token(auth: Option<&str>, legacy: Option<&str>) -> (r: Result<
    String,
    AppError,
>)
    ensures
        ({
            let sel = selected_token(auth.deep_view(), legacy.deep_view());
            match r {
                Ok(t) => sel matches Some(s) && t@ == trim_ws(s) && t@.len() > 0,
                Err(e) => e == AppError::MissingToken && (match sel {
                    Some(s) => trim_ws(s).len() == 0,
                    None => true,
                }),
            }
        }),
{
    let selected: Option<String> = match auth {
        Some(a) => Some(strip_bearer_exec(a)),
        None => match legacy {
            Some(g) => Some(g.to_owned()),
            None => None,
        },
    };
    match selected {
        Some(s) => {
            let trimmed = trim_ascii(s.as_str());
            if trimmed.as_str().is_empty() {
                Err(AppError::MissingToken)
            } else {
                Ok(trimmed)
            }
        },
        None => Err(AppError::MissingToken),
    }
}


/// The allowed origins a configuration string lists: its comma-separated
/// pieces, trimmed, with empty pieces dropped.
pub open spec fn origins_of(s: Seq<char>) -> Seq<Seq<char>> {
    split_commas(s).map_values(|p: Seq<char>| trim_ws(p)).filter(|p: Seq<char>| p.len() > 0)
}

/// Parses a comma-separated origin list.
pub fn parse_allowed_origins(s: &str) -> (r: Vec<String>)
    ensures
        r.deep_view() == origins_of(s@),
{
    broadcast use Seq::lemma_filter_push;

    let pieces = crate::strutil::split_csv(s);
    let ghost pv = pieces.deep_view();
    let ghost trimmed = pv.map_values(|p: Seq<char>| trim_ws(p));
    let mut out: Vec<String> = Vec::new();
    let mut i: usize = 0;
    proof {
        assert(trimmed.take(0).filter(|p: Seq<char>| p.len() > 0) =~= Seq::<Seq<char>>::empty());
    }
    while i < pieces.len()
        invariant
            i <= pieces.len(),
            pv == pieces.deep_view(),
            pv.len() == pieces.len(),
            trimmed == pv.map_values(|p: Seq<char>| trim_ws(p)),
            out.deep_view() == trimmed.take(i as int).filter(|p: Seq<char>| p.len() > 0),
        decreases pieces.len() - i,
    {
        proof {
            assert(trimmed.take(i + 1) =~= trimmed.take(i as int).push(trimmed[i as int]));
            trimmed.take(i as int).lemma_filter_push(
                trimmed[i as int],
                |p: Seq<char>| p.len() > 0,
            );
        }
        let piece = trim_ascii(pieces[i].as_str());
        proof {
            assert(piece@ == trimmed[i as int]);
        }
        if !piece.as_str().is_empty() {
            let ghost prev = out.deep_view();
            out.push(piece);
            proof {
                assert(out.deep_view() =~= prev.push(trimmed[i as int]));
            }
        }
        i += 1;
    }
    proof {
        assert(trimmed.take(pieces.len() as int) =~= trimmed);
        assert(origins_of(s@) == trimmed.filter(|p: Seq<char>| p.len() > 0));
    }
    out
}

/// The access level an API key grants: the application secret and the quote
/// backend's token grant administration, the widget key grants the widget
/// level, and anything else — an empty configured key never matches —
/// grants nothing.
pub open spec fn auth_level_of(key: Option<Seq<char>>, config: Config) -> Option<AuthLevel> {
    match key {
        Some(k) => if k == config.app_secret_key@ {
            Some(AuthLevel::Admin)
        } else if config.bubble_api_token@.len() > 0 && k == config.bubble_api_token@ {
            Some(AuthLevel::Admin)
        } else if config.widget_api_key@.len() > 0 && k == config.widget_api_key@ {
            Some(AuthLevel::Widget)
        } else {
            None
        },
        None => None,
    }
}

/// Classifies a request's API key against the configured keys.
pub fn classify_api_key(key: Option<&str>, config: &Config) -> (r: Option<AuthLevel>)
    ensures
        r == auth_level_of(key.deep_view(), *config),
{
    match key {
        Some(k) => {
            if str_eq(k, config.app_secret_key.as_str()) {
                Some(AuthLevel::Admin)
            } else if !config.bubble_api_token.as_str().is_empty() && str_eq(
                k,
                config.bubble_api_token.as_str(),
            ) {
                Some(AuthLevel::Admin)
            } else if !config.widget_api_key.as_str().is_empty() && str_eq(
                k,
                config.widget_api_key.as_str(),
            ) {
                Some(AuthLevel::Widget)
            } else {
                None
            }
        },
        None => None,
    }
}

} // verus!
