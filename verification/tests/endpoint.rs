use ollama_provider::{get_generate_url, get_request_url, ErrorDetails};
use url::Url;

fn endpoint(base: &str) -> String {
    get_generate_url(&Url::parse(base).unwrap()).unwrap().as_str().to_string()
}

#[test]
fn test_get_generate_url() {
    let base_url = Url::parse("http://localhost:11434/api").unwrap();
    let generate_url = get_generate_url(&base_url).unwrap();
    assert_eq!(generate_url.as_str(), "http://localhost:11434/api/generate");

    let base_url_no_trailing_slash = Url::parse("http://localhost:11434/api").unwrap();
    let generate_url = get_generate_url(&base_url_no_trailing_slash).unwrap();
    assert_eq!(generate_url.as_str(), "http://localhost:11434/api/generate");
}

#[test]
fn trailing_slash_makes_no_difference() {
    for base in [
        "http://localhost:11434",
        "https://example.com/v1.0/a-b_c~d",
        "file:///srv/ollama",
        "custom:/ollama",
        "custom://host",
        "http://example.com//a%20b/%7Bc%7D",
        "custom:/.//ollama",
    ] {
        assert_eq!(endpoint(base), endpoint(&format!("{}/", base)));
    }
}

#[test]
fn plain_base_is_continued() {
    assert_eq!(
        endpoint("https://example.com/v1.0/a-b_c~d"),
        "https://example.com/v1.0/a-b_c~d/generate"
    );
    assert_eq!(endpoint("http://user@example.com:8080/"), "http://user@example.com:8080/generate");
    assert_eq!(endpoint("file:///srv/ollama"), "file:///srv/ollama/generate");
    assert_eq!(endpoint("custom://host/ollama"), "custom://host/ollama/generate");
    assert_eq!(endpoint("custom:/ollama"), "custom:/ollama/generate");
}

#[test]
fn any_path_is_continued() {
    assert_eq!(
        endpoint("http://example.com/a b/\u{e9}"),
        "http://example.com/a%20b/%C3%A9/generate"
    );
    assert_eq!(
        endpoint("https://u:p@example.com:8443//a//b"),
        "https://u:p@example.com:8443//a//b/generate"
    );
    assert_eq!(endpoint("http://[::1]:11434/%2Fapi"), "http://[::1]:11434/%2Fapi/generate");
    assert_eq!(endpoint("http://./api"), "http://./api/generate");
    assert_eq!(endpoint("custom://host"), "custom://host/generate");
    assert_eq!(endpoint("custom:/.//ollama"), "custom:/.//ollama/generate");
    assert_eq!(endpoint("file:///C:"), "file:///C:/generate");
}

#[test]
fn query_and_fragment_are_dropped() {
    assert_eq!(endpoint("http://example.com/api?key=1#top"), "http://example.com/api/generate");
    assert_eq!(endpoint("http://example.com/api#a/b?c"), "http://example.com/api/generate");
    assert_eq!(endpoint("http://example.com/a%3Fb/?q=/x"), "http://example.com/a%3Fb/generate");
}

#[test]
fn path_that_was_not_escaped_is() {
    let mut base = Url::parse("custom:opaque").unwrap();
    base.set_path("\t/a b");
    assert_eq!(base.as_str(), "custom:/a b");
    let endpoint = get_request_url(&Some(base)).unwrap();
    assert_eq!(endpoint.as_str(), "custom:/a%20b/generate");
}

#[test]
fn segment_for_the_place_above_is_resolved() {
    let mut base = Url::from_file_path("/a/../b").unwrap();
    base.set_host(Some("example.com")).unwrap();
    base.set_scheme("http").unwrap();
    assert_eq!(base.as_str(), "http://example.com/a/../b");
    assert_eq!(get_generate_url(&base).unwrap().as_str(), "http://example.com/b/generate");
}

#[test]
fn base_that_cannot_be_a_base_is_refused() {
    let error = get_generate_url(&Url::parse("mailto:someone@example.com").unwrap()).unwrap_err();
    assert_eq!(
        error.get_owned_details(),
        ErrorDetails::InvalidBaseUrl {
            message: "relative URL with a cannot-be-a-base base".to_string()
        }
    );
    for base in ["custom:", "data:text/plain,a b/"] {
        assert!(get_request_url(&Some(Url::parse(base).unwrap())).is_err());
    }
}

#[test]
fn default_endpoint_is_on_this_machine() {
    assert_eq!(
        get_request_url(&None).unwrap().as_str(),
        "http://localhost:11434/api/generate"
    );
}

#[test]
fn configured_endpoint_is_below_its_base() {
    let base = Url::parse("http://gpu.example.com/ollama").unwrap();
    assert_eq!(
        get_request_url(&Some(base)).unwrap().as_str(),
        "http://gpu.example.com/ollama/generate"
    );
}
