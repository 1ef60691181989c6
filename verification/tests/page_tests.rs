use std::collections::HashMap;

use copal::fetch::fetch_url_with_client;
use copal::page::parse_html;
use copal::robots::HttpClient;
use copal::robots::RobotsCache;

#[test]
fn test_parse_html_extracts_title() {
    // Arrange
    let html = r#"
        <html>
            <head><title>Test Page</title></head>
            <body><p>Hello World</p></body>
        </html>
    "#;

    // Act
    let result = parse_html("https://example.com", html);

    // Assert
    assert_eq!(result.title, Some("Test Page".to_string()));
    assert_eq!(result.url, "https://example.com");
}

#[test]
fn test_parse_html_extracts_paragraphs() {
    // Multiple <p> tags should be joined with "\n\n"
    let html = r#"
        <html>
            <body>
                <p>First paragraph</p>
                <p>Second paragraph</p>
            </body>
        </html>
    "#;

    let result = parse_html("https://example.com", html);

    assert_eq!(result.text, "First paragraph\n\nSecond paragraph");
}

#[test]
fn test_parse_html_handles_missing_title() {
    // HTML without <title> tag should return None
    let html = r#"
        <html>
            <body><p>Content without title</p></body>
        </html>
    "#;

    let result = parse_html("https://example.com", html);

    assert_eq!(result.title, None);
}

/// Mock HTTP client for testing (supports URL-specific responses)
struct MockHttpClient {
    responses: HashMap<String, String>,
}

impl MockHttpClient {
    fn new() -> Self {
        Self { responses: HashMap::new() }
    }

    fn with_response(mut self, url: &str, body: &str) -> Self {
        self.responses.insert(url.to_string(), body.to_string());
        self
    }
}

impl HttpClient for MockHttpClient {
    fn get(&self, url: &str) -> Result<String, String> {
        self.responses
            .get(url)
            .cloned()
            .ok_or_else(|| format!("No mock response for {}", url))
    }
}

#[test]
fn test_fetch_url_with_mock_client() {
    let mock_html =
        r#"<html><head><title>Mock Page</title></head><body><p>Mock content</p></body></html>"#;
    let mock_client = MockHttpClient::new()
        .with_response("https://example.com/robots.txt", "User-agent: *\nAllow: /")
        .with_response("https://example.com", mock_html);
    let mut robots_cache = RobotsCache::new();

    let result =
        fetch_url_with_client(&mock_client, &mut robots_cache, "https://example.com").unwrap();

    assert_eq!(result.title, Some("Mock Page".to_string()));
    assert_eq!(result.text, "Mock content");
}

#[test]
fn test_fetch_blocked_by_robots_txt() {
    let mock_client = MockHttpClient::new().with_response(
        "https://example.com/robots.txt",
        "User-agent: *\nDisallow: /private",
    );
    let mut robots_cache = RobotsCache::new();

    let result = fetch_url_with_client(
        &mock_client,
        &mut robots_cache,
        "https://example.com/private/page",
    );

    assert!(result.is_err());
    assert!(result.unwrap_err().message().contains("robots.txt"));
}

#[test]
fn test_fetch_allowed_when_robots_txt_missing() {
    // No robots.txt response → graceful fallback → fetch proceeds
    let mock_client = MockHttpClient::new().with_response(
        "https://example.com/page",
        "<html><body><p>Content</p></body></html>",
    );
    let mut robots_cache = RobotsCache::new();

    let result =
        fetch_url_with_client(&mock_client, &mut robots_cache, "https://example.com/page").unwrap();

    assert_eq!(result.text, "Content");
}

#[test]
fn test_fetch_error_reports_client_message() {
    // The page itself cannot be fetched: the client's failure is the error
    let mock_client =
        MockHttpClient::new().with_response("https://example.com/robots.txt", "User-agent: *\nAllow: /");
    let mut robots_cache = RobotsCache::new();

    let result = fetch_url_with_client(&mock_client, &mut robots_cache, "https://example.com/gone");

    assert!(result.is_err());
    assert!(result.unwrap_err().message().contains("No mock response"));
}
