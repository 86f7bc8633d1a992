use local_ai_assistant::engine::content_source::{article_from_extraction, extract_article, parse_rss_feed};
use local_ai_assistant::engine::config::{validate_api_key, validate_api_key_with_fallbacks, validate_env_config};
use local_ai_assistant::engine::error::HttpFailure;
use local_ai_assistant::engine::content_source::{Article, ContentSource, ContentSourceType, SourceManager};
use local_ai_assistant::engine::error::{IDorisError, UserFriendlyError};

#[test]
fn test_error_display() {
    let err = IDorisError::ApiError("test".to_string());
    assert_eq!(err.to_string(), "API Error: test");
}

#[test]
fn test_user_friendly_auth_error() {
    let err = IDorisError::ApiError("401 authentication failed".to_string());
    assert!(err.user_message().contains("API keys"));
}

#[test]
fn test_user_friendly_model_error() {
    let err = IDorisError::ModelError("model not found".to_string());
    assert!(err.user_message().contains("download it from Settings"));
}

#[test]
fn test_from_string() {
    let err: IDorisError = "test error".into();
    assert_eq!(err.to_string(), "Error: test error");
}

#[test]
fn test_create_rss_source() {
    let source = ContentSource::new_rss("Tech News", "https://example.com/feed.xml");
    assert_eq!(source.name, "Tech News");
    assert_eq!(source.source_type, ContentSourceType::RssFeed);
    assert!(source.url.is_some());
}

#[test]
fn test_create_article() {
    let article = Article::new("source-1", "Test Article", "This is the content.");
    assert_eq!(article.title, "Test Article");
    assert_eq!(article.word_count, 4);
}

#[test]
fn test_source_manager() {
    let mut manager = SourceManager::new();
    let source = ContentSource::new_rss("Feed 1", "https://example.com/feed.xml");
    let id = source.id.clone();

    manager.add_source(source);
    assert_eq!(manager.list_sources().len(), 1);

    manager.remove_source(&id);
    assert_eq!(manager.list_sources().len(), 0);
}

#[test]
fn test_validate_env_config() {
    // Should not error even with missing keys
    assert!(validate_env_config(&vec![]).is_ok());
}

#[test]
fn env_notes_name_what_is_missing() {
    let env: Vec<(String, String)> = vec![
        ("HF_HOME".to_string(), "/hf".to_string()),
        ("TOGETHER_API_KEY".to_string(), "k".to_string()),
        ("BLANK".to_string(), "  ".to_string()),
    ];
    let notes = validate_env_config(&env).unwrap();
    assert_eq!(
        notes,
        vec![
            "Info: ByteDance/Jimeng API keys not configured. Video generation with ByteDance will not be available.",
            "Info: Replicate API token not configured.",
        ]
    );
    assert_eq!(validate_api_key(&env, "TOGETHER_API_KEY").unwrap(), "k");
    assert_eq!(
        validate_api_key(&env, "BLANK").unwrap_err().to_string(),
        "Configuration Error: BLANK is empty. Please provide a valid value."
    );
    assert_eq!(
        validate_api_key(&env, "NONE").unwrap_err().to_string(),
        "Configuration Error: NONE not configured. Please set it in your .env file."
    );
    assert_eq!(validate_api_key_with_fallbacks(&env, "NONE", &["BLANK", "HF_HOME"]).unwrap(), "/hf");
    assert_eq!(
        validate_api_key_with_fallbacks(&env, "A", &["B", "C"]).unwrap_err().to_string(),
        "Configuration Error: None of the API keys found: A, B, C"
    );
}

#[test]
fn error_texts() {
    assert_eq!(IDorisError::ModelError("m".into()).to_string(), "Model Error: m");
    assert_eq!(IDorisError::DatabaseError("d".into()).user_message(), "Database error: d. Your data is safe, but the operation failed.");
    assert_eq!(IDorisError::ApiError("429 slow".into()).user_message(), "API rate limit exceeded. Please try again in a few minutes.");
    assert_eq!(IDorisError::ApiError("timeout".into()).user_message(), "Request timed out. Please check your internet connection and try again.");
    assert_eq!(IDorisError::ApiError("boom".into()).user_message(), "API request failed: boom");
    assert_eq!(
        IDorisError::ModelError("out of memory".into()).user_message(),
        "Not enough memory to load the model. Try a smaller model or close other applications."
    );
    assert_eq!(IDorisError::ConfigError("missing key".into()).user_message(), "Configuration missing: missing key. Please check Settings.");
    assert_eq!(IDorisError::ConfigError("bad".into()).user_message(), "Configuration error: bad");
    assert_eq!(IDorisError::IoError("x".into()).user_message(), "File operation failed: x");
    assert_eq!(IDorisError::JsonError("x".into()).user_message(), "Data format error. The response from the server was invalid.");
    let t = HttpFailure { message: "m".into(), is_timeout: true, is_connect: false };
    assert_eq!(IDorisError::HttpError(t).user_message(), "Connection timed out. Please check your internet connection.");
    let c = HttpFailure { message: "m".into(), is_timeout: false, is_connect: true };
    assert_eq!(IDorisError::HttpError(c).user_message(), "Could not connect to the service. Please check your internet connection.");
    let n = HttpFailure { message: "m".into(), is_timeout: false, is_connect: false };
    assert_eq!(IDorisError::HttpError(n).to_string(), "HTTP Error: m");
    let from_string: IDorisError = String::from("s").into();
    assert_eq!(from_string.user_message(), "s");
}

#[test]
fn sources_and_articles() {
    let mut m = SourceManager::new();
    let a = ContentSource::new_rss("A", "https://a/feed");
    let b = ContentSource::new_webpage("https://b/page");
    let b_id = b.id.clone();
    m.add_source(a);
    m.add_source(b);
    assert_eq!(m.get_source(&b_id).map(|s| s.url.clone()), Some(Some("https://b/page".to_string())));
    assert_eq!(m.list_sources_by_type(ContentSourceType::WebPage).len(), 1);
    assert!(m.get_source("missing").is_none());
    let art = Article::new("s", "T", "one two three").with_url("u").with_author("me").with_summary("sum");
    assert_eq!((art.word_count, art.url.as_deref(), art.author.as_deref()), (3, Some("u"), Some("me")));
}

#[test]
fn feeds_parse_into_entries() {

    let xml = r#"<?xml version="1.0"?><rss version="2.0"><channel><title>C</title><link>https://c</link><description>d</description>
<item><title>First</title><link>https://c/1</link><guid>g1</guid><description>one</description></item>
<item><guid>g2</guid><link>https://c/2</link></item>
</channel></rss>"#;
    let entries = parse_rss_feed(xml.as_bytes()).unwrap();
    assert_eq!(entries.len(), 2);
    assert_eq!(entries[0].title, "First");
    assert_eq!(entries[0].url, "https://c/1");
    assert_eq!(entries[0].summary.as_deref(), Some("one"));
    assert_eq!(entries[1].title, "Untitled");
    assert!(parse_rss_feed(b"not a feed").unwrap_err().starts_with("Failed to parse RSS feed: "));
}

#[test]
fn pages_are_extracted() {

    let html = "<html><head><title>Bees</title></head><body><div><p>Bees make honey and live in hives together.</p></div></body></html>";
    let a = extract_article("https://example.com/bees", html).unwrap();
    assert_eq!(a.title, "Bees");
    assert!(a.content.contains("Bees make honey"));
    assert_eq!(a.url.as_deref(), Some("https://example.com/bees"));
    let e = extract_article("not a url", html).unwrap_err();
    assert!(e.starts_with("Failed to extract article: "));
    assert!(e.len() > "Failed to extract article: ".len());
    let b = article_from_extraction("u", Ok(("T".to_string(), "one two".to_string()))).unwrap();
    assert_eq!((b.title.as_str(), b.word_count), ("T", 2));
    assert_eq!(article_from_extraction("u", Err("x".to_string())).unwrap_err(), "Failed to extract article: x");
}
