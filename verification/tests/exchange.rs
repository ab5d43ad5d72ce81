use github_dev_app::exchange::{check_exchange_reply, conversion_path, conversion_url};

#[test]
fn conversion_path_embeds_the_code() {
    assert_eq!(
        "app-manifests/abc123/conversions",
        conversion_path("abc123")
    );
}

#[test]
fn conversion_url_joins_against_the_endpoint() {
    let url = conversion_url("https://api.github.com", "abc123");

    assert_eq!(
        Some("https://api.github.com/app-manifests/abc123/conversions".to_string()),
        url
    );
}

#[test]
fn conversion_url_fails_on_an_unusable_endpoint() {
    assert_eq!(None, conversion_url("not a url", "abc123"));
}

#[test]
fn successful_reply_hands_the_body_on() {
    let result = check_exchange_reply(true, "{\"id\":1}".to_string());

    assert_eq!(Ok("{\"id\":1}".to_string()), result.map_err(|e| e.message()));
}

#[test]
fn failed_reply_surfaces_the_body_text() {
    let result = check_exchange_reply(false, "rate limit exceeded".to_string());

    let failure = result.err().expect("a non-success reply must fail");
    assert_eq!("rate limit exceeded", failure.diagnostic());
    assert!(failure.message().contains("rate limit exceeded"));
    assert_eq!(
        "failed to convert temporary code: rate limit exceeded",
        failure.message()
    );
}
