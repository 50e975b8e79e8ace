use santosobot::agent::tools::web::{extract_text, parse_url, WebFetchTool};
use santosobot::json::{Json, JsonNumber};

#[test]
fn test_validate_url_valid_urls() {
    let tool = WebFetchTool::new();

    let valid_urls = vec![
        "https://example.com",
        "http://example.com",
        "https://www.rust-lang.org",
        "https://api.github.com/users/octocat",
    ];

    for url in valid_urls {
        let result = tool.validate_url(url);
        assert!(result.is_ok(), "URL '{}' should be valid: {:?}", url, result.err());
    }
}

#[test]
fn test_validate_url_invalid_urls() {
    let tool = WebFetchTool::new();

    let invalid_urls = vec!["ftp://example.com", "javascript:alert('xss')", "", "not-a-url"];

    for url in invalid_urls {
        let result = tool.validate_url(url);
        assert!(result.is_err(), "URL '{}' should be invalid", url);
    }
}

#[test]
fn test_validate_url_local_addresses() {
    let tool = WebFetchTool::new();

    let local_urls = vec![
        "http://localhost",
        "https://localhost:8080",
        "http://127.0.0.1",
        "https://10.0.0.1",
        "http://192.168.1.1",
        "https://172.16.0.1",
    ];

    for url in local_urls {
        let result = tool.validate_url(url);
        assert!(result.is_err(), "Local URL '{}' should be blocked", url);
    }
}

#[test]
fn test_web_fetch_tool_parameters() {
    let tool = WebFetchTool::new();

    let params = tool.parameters();
    assert_eq!(params.get("type"), Some(&Json::Text("object".to_string())));
    let properties = params.get("properties").unwrap();
    assert!(matches!(properties.get("url"), Some(Json::Object(_))));
    assert!(matches!(properties.get("max_length"), Some(Json::Object(_))));
    assert_eq!(params.get("required").unwrap().at(0), Some(&Json::Text("url".to_string())));
}

#[test]
fn test_extract_text_basic_html() {
    let html = "<html><head><title>Test</title></head><body><p>Hello world!</p></body></html>";
    let extracted = extract_text(html);
    assert!(extracted.contains("Hello world!"));
    assert!(!extracted.contains("<p>"));
    assert!(!extracted.contains("</p>"));
}

#[test]
fn test_extract_text_with_script_and_style() {
    let html = r#"
        <html>
            <head>
                <style>body { color: red; }</style>
            </head>
            <body>
                <script>alert('test');</script>
                <p>Main content here</p>
            </body>
        </html>"#;

    let extracted = extract_text(html);
    assert!(extracted.contains("Main content here"));
    assert!(!extracted.contains("alert"));
    assert!(!extracted.contains("color: red"));
}

#[test]
fn extract_text_exact_values() {
    assert_eq!(extract_text("<p>Hello   <b>big</b>\n world</p>"), "Hello big world");
    assert_eq!(extract_text("a < b"), "a < b");
    assert_eq!(extract_text("x<script>y</script>z"), "x</script>z");
    assert_eq!(extract_text("x<style>y</style>z"), "x</style>z");
    assert_eq!(extract_text(""), "");
    assert_eq!(extract_text("  \t "), "");
}

#[test]
fn validate_url_gives_each_error() {
    let tool = WebFetchTool::new();
    assert_eq!(tool.validate_url("not-a-url"), Err("Invalid URL format".to_string()));
    assert_eq!(
        tool.validate_url("ftp://example.com"),
        Err("Only http and https schemes are allowed".to_string())
    );
    assert_eq!(
        tool.validate_url("http://172.31.255.1/x"),
        Err("Access to local/network addresses is not allowed".to_string())
    );
    assert_eq!(
        tool.validate_url("http://0.0.0.0"),
        Err("Access to local/network addresses is not allowed".to_string())
    );
    assert_eq!(
        tool.validate_url("http://169.254.1.1"),
        Err("Access to local/network addresses is not allowed".to_string())
    );
    assert_eq!(
        tool.validate_url("https://admin.example.com"),
        Err("URL contains potentially dangerous pattern: (?i)(admin|root|passwd|shadow|etc|var|proc)"
            .to_string())
    );
    assert_eq!(
        tool.validate_url("HTTPS://Example.COM/a b"),
        Ok("https://example.com/a%20b".to_string())
    );
    assert_eq!(tool.validate_url("http://172.32.0.1"), Ok("http://172.32.0.1/".to_string()));
    assert_eq!(tool.validate_url("http://172.15.0.1"), Ok("http://172.15.0.1/".to_string()));
}

#[test]
fn judge_url_without_host() {
    let tool = WebFetchTool::new();
    let parts = parse_url("http://example.com").map(|mut p| {
        p.host = None;
        p
    });
    assert_eq!(tool.judge_url(parts, Ok(false)), Err("URL must have a host".to_string()));
    assert_eq!(
        tool.judge_url(parse_url("https://example.com"), Err("bad".to_string())),
        Err("Regex error: bad".to_string())
    );
}

#[test]
fn parse_url_reads_scheme_and_host() {
    let parts = parse_url("https://User@Sub.Example.com:8080/path?q=1").unwrap();
    assert_eq!(parts.scheme, "https");
    assert_eq!(parts.host, Some("sub.example.com".to_string()));
    assert_eq!(parts.text, "https://User@sub.example.com:8080/path?q=1");
    assert!(parse_url("data:text/plain,Stuff").unwrap().host.is_none());
    assert!(parse_url("nonsense").is_none());
}

#[test]
fn response_checks_and_rendering() {
    let tool = WebFetchTool::new();
    assert_eq!(tool.check_response(true, "200 OK", None), None);
    assert_eq!(tool.check_response(true, "200 OK", Some(10 * 1024 * 1024)), None);
    assert_eq!(
        tool.check_response(true, "200 OK", Some(10 * 1024 * 1024 + 1)),
        Some("Response too large (>10MB)".to_string())
    );
    assert_eq!(
        tool.check_response(false, "404 Not Found", None),
        Some("HTTP error: 404 Not Found".to_string())
    );
    assert_eq!(tool.render("<p>Hello world</p>", 5), "Hello...[truncated]");
    assert_eq!(tool.render("<p>Hello</p>", 5), "Hello");
    let args = Json::Object(vec![(
        "max_length".to_string(),
        Json::Number(JsonNumber::PosInt(12)),
    )]);
    assert_eq!(tool.max_length(&args), 12);
    assert_eq!(tool.max_length(&Json::Object(vec![])), 10000);
    assert_eq!(tool.name(), "web_fetch");
    assert_eq!(tool.description(), "Fetch content from a URL");
}
