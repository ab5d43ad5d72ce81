use github_dev_app::App;

fn assert_send<T: Send>() {}

fn assert_sync<T: Sync>() {}

fn assert_unpin<T: Unpin>() {}

#[test]
fn getters_return_the_constructed_values() {
    let app = App::new(
        10,
        "octoapp".to_string(),
        "client".to_string(),
        "secret".to_string(),
        Some("hook".to_string()),
        "pem".to_string(),
    );

    assert_eq!(10, app.id());
    assert_eq!("octoapp", app.name());
    assert_eq!("client", app.client_id());
    assert_eq!("secret", app.client_secret());
    assert_eq!(&Some("hook".to_string()), app.webhook_secret());
    assert_eq!("pem", app.pem());
}

#[test]
fn app_trait_send() {
    assert_send::<App>();
}

#[test]
fn app_trait_sync() {
    assert_sync::<App>();
}

#[test]
fn app_trait_unpin() {
    assert_unpin::<App>();
}
