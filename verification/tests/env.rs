use github_dev_app::env::update_env;
use github_dev_app::App;

fn sample_app() -> App {
    App::new(
        1,
        "app".to_string(),
        "client_id".to_string(),
        "client_secret".to_string(),
        Some("webhook_secret".to_string()),
        "pem".to_string(),
    )
}

#[test]
fn replaces_github_app() {
    let dotenv = "GITHUB_APP_ID=1\nDATABASE_URL=postgres://localhost/db\n";

    let app = sample_app();

    let new_env = update_env(dotenv, &app);

    assert_eq!(
        "DATABASE_URL=postgres://localhost/db\n\
         GITHUB_APP_ID=1\n\
         GITHUB_APP_NAME=app\n\
         GITHUB_CLIENT_ID=\"client_id\"\n\
         GITHUB_CLIENT_SECRET=client_secret\n\
         GITHUB_WEBHOOK_SECRET=webhook_secret\n\
         GITHUB_PRIVATE_KEY=\"pem\"\n",
        new_env
    );
}

#[test]
fn merge_on_empty_file_writes_only_managed_lines() {
    let app = sample_app();

    let new_env = update_env("", &app);

    assert_eq!(
        "GITHUB_APP_ID=1\n\
         GITHUB_APP_NAME=app\n\
         GITHUB_CLIENT_ID=\"client_id\"\n\
         GITHUB_CLIENT_SECRET=client_secret\n\
         GITHUB_WEBHOOK_SECRET=webhook_secret\n\
         GITHUB_PRIVATE_KEY=\"pem\"\n",
        new_env
    );
}

#[test]
fn merge_without_webhook_secret_omits_its_line() {
    let app = App::new(
        7,
        "app".to_string(),
        "client_id".to_string(),
        "client_secret".to_string(),
        None,
        "pem".to_string(),
    );

    let new_env = update_env("", &app);

    assert_eq!(
        "GITHUB_APP_ID=7\n\
         GITHUB_APP_NAME=app\n\
         GITHUB_CLIENT_ID=\"client_id\"\n\
         GITHUB_CLIENT_SECRET=client_secret\n\
         GITHUB_PRIVATE_KEY=\"pem\"\n",
        new_env
    );
}

#[test]
fn merge_replaces_every_managed_line() {
    let dotenv = "GITHUB_APP_ID=99\n\
                  GITHUB_APP_NAME=old\n\
                  KEEP_ME=yes\n\
                  GITHUB_CLIENT_ID=\"old\"\n\
                  GITHUB_CLIENT_SECRET=old\n\
                  GITHUB_WEBHOOK_SECRET=old\n\
                  GITHUB_PRIVATE_KEY=\"old\"\n\
                  ANOTHER=value\n";

    let app = sample_app();

    let new_env = update_env(dotenv, &app);

    assert_eq!(
        "KEEP_ME=yes\n\
         ANOTHER=value\n\
         GITHUB_APP_ID=1\n\
         GITHUB_APP_NAME=app\n\
         GITHUB_CLIENT_ID=\"client_id\"\n\
         GITHUB_CLIENT_SECRET=client_secret\n\
         GITHUB_WEBHOOK_SECRET=webhook_secret\n\
         GITHUB_PRIVATE_KEY=\"pem\"\n",
        new_env
    );
}

#[test]
fn merge_keeps_lines_whose_key_merely_begins_with_a_managed_key() {
    let dotenv = "GITHUB_APP_ID_BACKUP=x\nGITHUB_APP_ID=9\nGITHUB_APP_NAMES=several\n";

    let app = sample_app();

    let new_env = update_env(dotenv, &app);

    assert_eq!(
        "GITHUB_APP_ID_BACKUP=x\n\
         GITHUB_APP_NAMES=several\n\
         GITHUB_APP_ID=1\n\
         GITHUB_APP_NAME=app\n\
         GITHUB_CLIENT_ID=\"client_id\"\n\
         GITHUB_CLIENT_SECRET=client_secret\n\
         GITHUB_WEBHOOK_SECRET=webhook_secret\n\
         GITHUB_PRIVATE_KEY=\"pem\"\n",
        new_env
    );
}

#[test]
fn merge_replaces_a_bare_managed_key_line_without_a_value() {
    let dotenv = "GITHUB_APP_ID\nKEEP=1\n";

    let app = sample_app();

    let new_env = update_env(dotenv, &app);

    assert_eq!(
        "KEEP=1\n\
         GITHUB_APP_ID=1\n\
         GITHUB_APP_NAME=app\n\
         GITHUB_CLIENT_ID=\"client_id\"\n\
         GITHUB_CLIENT_SECRET=client_secret\n\
         GITHUB_WEBHOOK_SECRET=webhook_secret\n\
         GITHUB_PRIVATE_KEY=\"pem\"\n",
        new_env
    );
}

#[test]
fn merge_twice_is_idempotent() {
    let dotenv = "GITHUB_APP_ID=1\nDATABASE_URL=postgres://localhost/db\n";

    let app = sample_app();

    let once = update_env(dotenv, &app);
    let twice = update_env(&once, &app);

    assert_eq!(once, twice);
}

#[test]
fn merge_escapes_private_key() {
    let app = App::new(
        1,
        "app".to_string(),
        "client_id".to_string(),
        "client_secret".to_string(),
        None,
        "line one\nline two".to_string(),
    );

    let new_env = update_env("", &app);

    assert_eq!(
        "GITHUB_APP_ID=1\n\
         GITHUB_APP_NAME=app\n\
         GITHUB_CLIENT_ID=\"client_id\"\n\
         GITHUB_CLIENT_SECRET=client_secret\n\
         GITHUB_PRIVATE_KEY=\"line one\\nline two\"\n",
        new_env
    );
}

#[test]
fn merge_splits_crlf_lines_like_plain_newlines() {
    let dotenv = "DATABASE_URL=postgres://localhost/db\r\nGITHUB_APP_ID=9\r\n";

    let app = sample_app();

    let new_env = update_env(dotenv, &app);

    assert_eq!(
        "DATABASE_URL=postgres://localhost/db\n\
         GITHUB_APP_ID=1\n\
         GITHUB_APP_NAME=app\n\
         GITHUB_CLIENT_ID=\"client_id\"\n\
         GITHUB_CLIENT_SECRET=client_secret\n\
         GITHUB_WEBHOOK_SECRET=webhook_secret\n\
         GITHUB_PRIVATE_KEY=\"pem\"\n",
        new_env
    );
}

#[test]
fn merge_escapes_non_ascii_private_key_characters() {
    let app = App::new(
        1,
        "app".to_string(),
        "client_id".to_string(),
        "client_secret".to_string(),
        None,
        "k\u{e9}y".to_string(),
    );

    let new_env = update_env("", &app);

    assert_eq!(
        "GITHUB_APP_ID=1\n\
         GITHUB_APP_NAME=app\n\
         GITHUB_CLIENT_ID=\"client_id\"\n\
         GITHUB_CLIENT_SECRET=client_secret\n\
         GITHUB_PRIVATE_KEY=\"k\\u{e9}y\"\n",
        new_env
    );
}

#[test]
fn merge_keeps_unmanaged_lines_without_trailing_newline() {
    let dotenv = "FIRST=1\nSECOND=2";

    let app = App::new(
        42,
        "app".to_string(),
        "id".to_string(),
        "secret".to_string(),
        None,
        "pem".to_string(),
    );

    let new_env = update_env(dotenv, &app);

    assert_eq!(
        "FIRST=1\n\
         SECOND=2\n\
         GITHUB_APP_ID=42\n\
         GITHUB_APP_NAME=app\n\
         GITHUB_CLIENT_ID=\"id\"\n\
         GITHUB_CLIENT_SECRET=secret\n\
         GITHUB_PRIVATE_KEY=\"pem\"\n",
        new_env
    );
}
