use mailgate::error::{detail_message, error_response_parts, AppError};
use mailgate::facade::{classify_api_key, extract_bearer_token, parse_allowed_origins,
    parse_quote_provider, select_provider, ProviderKind};
use mailgate::model::{AuthLevel, Config, ProviderParams};
use mailgate::quote::{classify_pdf_content, classify_reminder_file, ensure_https_protocol,
    FileSource};

fn provider_params(name: Option<&str>) -> ProviderParams {
    ProviderParams { provider: name.map(str::to_string), company: None }
}

#[test]
fn provider_selection_covers_aliases_and_default() {
    assert_eq!(select_provider(&provider_params(Some("outlook"))), ProviderKind::Outlook);
    assert_eq!(select_provider(&provider_params(Some("microsoft"))), ProviderKind::Outlook);
    assert_eq!(select_provider(&provider_params(Some("postmark"))), ProviderKind::Postmark);
    assert_eq!(select_provider(&provider_params(Some("gmail"))), ProviderKind::Gmail);
    assert_eq!(select_provider(&provider_params(Some("anything"))), ProviderKind::Gmail);
    assert_eq!(select_provider(&provider_params(None)), ProviderKind::Gmail);
}

#[test]
fn quote_provider_accepts_only_the_three_exact_names() {
    assert_eq!(parse_quote_provider("gmail").unwrap(), ProviderKind::Gmail);
    assert_eq!(parse_quote_provider("outlook").unwrap(), ProviderKind::Outlook);
    assert_eq!(parse_quote_provider("postmark").unwrap(), ProviderKind::Postmark);
    match parse_quote_provider("microsoft").unwrap_err() {
        AppError::BadRequest { message } => {
            assert_eq!(message, "Invalid provider. Use 'gmail', 'outlook', or 'postmark'");
        },
        other => panic!("expected bad request, got {:?}", other),
    }
}

#[test]
fn bearer_token_extraction_strips_and_trims() {
    assert_eq!(extract_bearer_token(Some("Bearer abc123"), None).unwrap(), "abc123");
    assert_eq!(extract_bearer_token(Some("  raw-token  "), None).unwrap(), "raw-token");
    assert_eq!(extract_bearer_token(None, Some("legacy-token")).unwrap(), "legacy-token");
    assert!(matches!(
        extract_bearer_token(None, None),
        Err(AppError::MissingToken)
    ));
    assert!(matches!(
        extract_bearer_token(Some("Bearer    "), None),
        Err(AppError::MissingToken)
    ));
}

#[test]
fn error_responses_follow_the_taxonomy() {
    let cases: Vec<(AppError, u16, &str)> = vec![
        (AppError::Transport { detail: "x".to_string() }, 502, "Network or API error"),
        (
            AppError::GmailApi { status: Some(401), detail: String::new() },
            401,
            "Invalid or expired Google Token",
        ),
        (
            AppError::GmailApi { status: Some(429), detail: String::new() },
            429,
            "Gmail API returned an error",
        ),
        (
            AppError::GmailApi { status: None, detail: String::new() },
            502,
            "Failed to reach Gmail API",
        ),
        (
            AppError::OutlookApi { status: Some(401), detail: String::new() },
            401,
            "Invalid or expired Microsoft Token",
        ),
        (
            AppError::OutlookApi { status: None, detail: String::new() },
            502,
            "Failed to reach Microsoft Graph API",
        ),
        (AppError::MissingToken, 401, "Missing Authorization header"),
        (AppError::BadRequest { message: "nope".to_string() }, 400, "nope"),
        (AppError::Config { message: "missing key".to_string() }, 500, "missing key"),
        (
            AppError::BubbleApi { status: Some(401), detail: String::new() },
            500,
            "Bubble API Token Invalid/Expired",
        ),
        (
            AppError::BubbleApi { status: Some(404), detail: String::new() },
            404,
            "Quote ID not found in Bubble",
        ),
        (
            AppError::BubbleApi { status: Some(500), detail: String::new() },
            502,
            "Bubble API returned an error",
        ),
        (AppError::BadGateway { message: "down".to_string() }, 502, "down"),
        (AppError::Forbidden { message: "no".to_string() }, 403, "no"),
        (AppError::Serialization { detail: String::new() }, 500, "Internal server error"),
        (AppError::Internal { detail: String::new() }, 500, "Internal server error"),
        (AppError::Envelope { message: "bad".to_string() }, 500, "Internal server error"),
    ];
    for (err, status, message) in cases {
        let (got_status, got_message) = error_response_parts(&err);
        assert_eq!(got_status, status, "status for {:?}", err);
        assert_eq!(got_message, message, "message for {:?}", err);
    }
}

#[test]
fn invalid_status_numbers_fall_back_to_bad_gateway() {
    let (status, _) = error_response_parts(&AppError::GmailApi {
        status: Some(42),
        detail: String::new(),
    });
    assert_eq!(status, 502);
}

#[test]
fn detail_lines_name_the_failure() {
    assert_eq!(
        detail_message(&AppError::BadRequest { message: "x".to_string() }),
        "Bad request: x"
    );
    assert_eq!(detail_message(&AppError::MissingToken), "Missing Token");
    assert_eq!(
        detail_message(&AppError::GmailApi { status: Some(500), detail: "boom".to_string() }),
        "Gmail API error: boom"
    );
}

#[test]
fn protocol_relative_urls_are_completed() {
    assert_eq!(ensure_https_protocol("//cdn.example/file.pdf"), "https://cdn.example/file.pdf");
    assert_eq!(ensure_https_protocol("https://a.b/c"), "https://a.b/c");
    assert_eq!(ensure_https_protocol("plain"), "plain");
}

#[test]
fn pdf_content_classifies_urls_and_base64() {
    match classify_pdf_content("https://host/file.pdf").unwrap() {
        FileSource::Url { url } => assert_eq!(url, "https://host/file.pdf"),
        FileSource::Bytes { .. } => panic!("a URL must stay a URL"),
    }
    match classify_pdf_content("//host/file.pdf").unwrap() {
        FileSource::Url { url } => assert_eq!(url, "https://host/file.pdf"),
        FileSource::Bytes { .. } => panic!("a URL must stay a URL"),
    }
    match classify_pdf_content("data:application/pdf;base64,aGVsbG8=").unwrap() {
        FileSource::Bytes { bytes } => assert_eq!(bytes, b"hello"),
        FileSource::Url { .. } => panic!("inline content must decode"),
    }
    match classify_pdf_content("aGVsbG8=").unwrap() {
        FileSource::Bytes { bytes } => assert_eq!(bytes, b"hello"),
        FileSource::Url { .. } => panic!("inline content must decode"),
    }
    match classify_pdf_content("*not base64*").unwrap_err() {
        AppError::BadRequest { message } => assert_eq!(message, "Invalid PDF base64"),
        other => panic!("expected bad request, got {:?}", other),
    }
}

#[test]
fn reminder_file_rejection_names_its_field() {
    match classify_reminder_file("*not base64*").unwrap_err() {
        AppError::BadRequest { message } => assert_eq!(message, "Invalid file base64"),
        other => panic!("expected bad request, got {:?}", other),
    }
}

#[test]
fn origin_lists_are_split_and_trimmed() {
    assert_eq!(parse_allowed_origins("*"), vec!["*"]);
    assert_eq!(
        parse_allowed_origins(" https://a.example , https://b.example ,, "),
        vec!["https://a.example", "https://b.example"]
    );
    assert!(parse_allowed_origins("").is_empty());
}

#[test]
fn api_keys_classify_against_the_configured_keys() {
    let config = Config {
        app_secret_key: "admin-key".to_string(),
        bubble_api_token: "bubble-key".to_string(),
        widget_api_key: "widget-key".to_string(),
        allowed_origins: vec![],
    };
    assert_eq!(classify_api_key(Some("admin-key"), &config), Some(AuthLevel::Admin));
    assert_eq!(classify_api_key(Some("bubble-key"), &config), Some(AuthLevel::Admin));
    assert_eq!(classify_api_key(Some("widget-key"), &config), Some(AuthLevel::Widget));
    assert_eq!(classify_api_key(Some("wrong"), &config), None);
    assert_eq!(classify_api_key(None, &config), None);

    let no_widget = Config {
        app_secret_key: "admin-key".to_string(),
        bubble_api_token: String::new(),
        widget_api_key: String::new(),
        allowed_origins: vec![],
    };
    assert_eq!(classify_api_key(Some(""), &no_widget), None);
}
