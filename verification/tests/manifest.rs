use github_dev_app::manifest::{HookAttributes, Manifest};

fn assert_send<T: Send>() {}

fn assert_sync<T: Sync>() {}

fn assert_unpin<T: Unpin>() {}

#[test]
fn trait_serialize() {
    let manifest = Manifest::new("https://www.example.com".to_string());

    let expected = r#"{"url":"https://www.example.com"}"#;

    let json = manifest.to_json();

    assert_eq!(expected, json);
}

#[test]
fn minimal_manifest_round_trips_to_same_text() {
    let manifest = Manifest::new("http://localhost".to_string());

    assert_eq!(r#"{"url":"http://localhost"}"#, manifest.to_json());
}

#[test]
fn loaded_minimal_manifest_reserializes_to_the_same_text() {
    let source = r#"{"url":"http://localhost"}"#;

    let loaded: serde_json::Value = serde_json::from_str(source).unwrap();
    let url = loaded
        .get("url")
        .and_then(|v| v.as_str())
        .expect("the manifest must carry its url")
        .to_string();
    let manifest = Manifest::new(url);

    assert_eq!(source, manifest.to_json());
}

#[test]
fn optional_fields_are_serialized_in_declaration_order() {
    let mut manifest = Manifest::new("https://www.example.com".to_string());
    manifest.name = Some("Octoapp".to_string());
    manifest.hook_attributes = Some(HookAttributes {
        url: "https://example.com/github/events".to_string(),
        active: None,
    });
    manifest.redirect_url = Some("https://example.com/redirect".to_string());
    manifest.callback_urls = Some(vec!["https://example.com/callback".to_string()]);
    manifest.public = Some(true);
    manifest.default_events = Some(vec!["issues".to_string(), "check_run".to_string()]);
    manifest.default_permissions = Some(vec![
        ("issues".to_string(), "write".to_string()),
        ("checks".to_string(), "write".to_string()),
    ]);

    let expected = "{\"name\":\"Octoapp\",\
         \"url\":\"https://www.example.com\",\
         \"hook_attributes\":{\"url\":\"https://example.com/github/events\"},\
         \"redirect_url\":\"https://example.com/redirect\",\
         \"callback_urls\":[\"https://example.com/callback\"],\
         \"public\":true,\
         \"default_events\":[\"issues\",\"check_run\"],\
         \"default_permissions\":{\"issues\":\"write\",\"checks\":\"write\"}}";

    assert_eq!(expected, manifest.to_json());
}

#[test]
fn hook_attributes_serialize_active_flag() {
    let mut manifest = Manifest::new("https://www.example.com".to_string());
    manifest.hook_attributes = Some(HookAttributes {
        url: "https://example.com/events".to_string(),
        active: Some(false),
    });

    let expected = "{\"url\":\"https://www.example.com\",\
         \"hook_attributes\":{\"url\":\"https://example.com/events\",\"active\":false}}";

    assert_eq!(expected, manifest.to_json());
}

#[test]
fn json_strings_are_escaped() {
    let mut manifest = Manifest::new("https://www.example.com".to_string());
    manifest.description = Some("a \"quoted\" name\nwith\tcontrol \u{1} chars".to_string());

    let expected = "{\"url\":\"https://www.example.com\",\
         \"description\":\"a \\\"quoted\\\" name\\nwith\\tcontrol \\u0001 chars\"}";

    assert_eq!(expected, manifest.to_json());
}

#[test]
fn serialized_manifest_is_valid_json() {
    let mut manifest = Manifest::new("https://www.example.com".to_string());
    manifest.name = Some("Octoapp".to_string());
    manifest.public = Some(true);
    manifest.setup_on_update = Some(true);
    manifest.request_oauth_on_install = Some(false);
    manifest.setup_url = Some("https://example.com/setup".to_string());

    let json = manifest.to_json();
    let value: serde_json::Value = serde_json::from_str(&json).expect("invalid JSON produced");

    assert_eq!(
        Some("Octoapp"),
        value.get("name").and_then(|v| v.as_str())
    );
    assert_eq!(Some(true), value.get("public").and_then(|v| v.as_bool()));
    assert_eq!(
        Some(false),
        value.get("request_oauth_on_install").and_then(|v| v.as_bool())
    );
}

#[test]
fn manifest_trait_send() {
    assert_send::<Manifest>();
}

#[test]
fn manifest_trait_sync() {
    assert_sync::<Manifest>();
}

#[test]
fn manifest_trait_unpin() {
    assert_unpin::<Manifest>();
}
