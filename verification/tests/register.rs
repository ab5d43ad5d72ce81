use github_dev_app::register::{step, Action, Event, Mode, Phase, Stage};
use github_dev_app::App;

fn credentials() -> App {
    App::new(
        1,
        "app".to_string(),
        "client".to_string(),
        "secret".to_string(),
        None,
        "pem".to_string(),
    )
}

#[test]
fn interactive_run_walks_through_all_phases() {
    let mode = Mode::InteractiveExchange;

    let (phase, action) = step(
        Phase::LoadingManifest,
        mode,
        true,
        Event::ManifestLoaded("{\"url\":\"http://localhost\"}".to_string()),
    );
    assert_eq!(Phase::Binding, phase);
    assert!(matches!(action, Action::StartServer));

    let (phase, action) = step(phase, mode, true, Event::ServerBound);
    assert_eq!(Phase::AwaitingCallback, phase);
    assert!(matches!(action, Action::Advertise(true)));

    let (phase, action) = step(phase, mode, true, Event::CodeReceived("abc123".to_string()));
    assert_eq!(Phase::Exchanging, phase);
    match action {
        Action::ExchangeCode(code) => assert_eq!("abc123", code),
        _ => panic!("expected an exchange action"),
    }

    let (phase, action) = step(phase, mode, true, Event::ExchangeSucceeded(credentials()));
    assert_eq!(Phase::Persisting, phase);
    match action {
        Action::PersistCredentials(app) => assert_eq!(1, app.id()),
        _ => panic!("expected a persist action"),
    }

    let (phase, action) = step(phase, mode, true, Event::PersistSucceeded);
    assert_eq!(Phase::Completed, phase);
    assert!(matches!(action, Action::Finish));
}

#[test]
fn non_interactive_run_does_not_open_the_browser() {
    let (_, action) = step(Phase::Binding, Mode::InteractiveExchange, false, Event::ServerBound);

    assert!(matches!(action, Action::Advertise(false)));
}

#[test]
fn failed_exchange_aborts_with_the_response_body() {
    let (phase, action) = step(
        Phase::Exchanging,
        Mode::InteractiveExchange,
        true,
        Event::ExchangeFailed("rate limit exceeded".to_string()),
    );

    assert_eq!(Phase::Failed, phase);
    match action {
        Action::Abort(stage, detail) => {
            assert_eq!(Stage::Exchange, stage);
            assert_eq!("rate limit exceeded", detail);
        },
        _ => panic!("expected an abort"),
    }

    // No later event revives an aborted run or reaches persistence.
    let (phase, action) = step(phase, Mode::InteractiveExchange, true, Event::PersistSucceeded);
    assert_eq!(Phase::Failed, phase);
    assert!(matches!(action, Action::Ignore));

    let (phase, action) = step(
        phase,
        Mode::InteractiveExchange,
        true,
        Event::ExchangeSucceeded(credentials()),
    );
    assert_eq!(Phase::Failed, phase);
    assert!(matches!(action, Action::Ignore));
}

#[test]
fn bind_failure_aborts_before_any_interaction() {
    let (phase, action) = step(
        Phase::Binding,
        Mode::InteractiveExchange,
        true,
        Event::BindFailed("address already in use".to_string()),
    );

    assert_eq!(Phase::Failed, phase);
    match action {
        Action::Abort(stage, detail) => {
            assert_eq!(Stage::Bind, stage);
            assert_eq!("address already in use", detail);
        },
        _ => panic!("expected an abort"),
    }
}

#[test]
fn manifest_failure_aborts_the_run() {
    let (phase, action) = step(
        Phase::LoadingManifest,
        Mode::InteractiveExchange,
        true,
        Event::ManifestFailed("missing field `url`".to_string()),
    );

    assert_eq!(Phase::Failed, phase);
    match action {
        Action::Abort(stage, detail) => {
            assert_eq!(Stage::ManifestLoad, stage);
            assert_eq!("missing field `url`", detail);
        },
        _ => panic!("expected an abort"),
    }
}

#[test]
fn persist_failure_aborts_the_run() {
    let (phase, action) = step(
        Phase::Persisting,
        Mode::InteractiveExchange,
        true,
        Event::PersistFailed("permission denied".to_string()),
    );

    assert_eq!(Phase::Failed, phase);
    assert!(matches!(action, Action::Abort(Stage::Persist, _)));
}

#[test]
fn headless_run_finishes_on_timeout_without_exchanging() {
    let mode = Mode::Headless;

    let (phase, action) = step(Phase::Binding, mode, true, Event::ServerBound);
    assert_eq!(Phase::AwaitingCallback, phase);
    assert!(matches!(action, Action::Advertise(false)));

    let (phase, action) = step(phase, mode, true, Event::IdleTimeout);
    assert_eq!(Phase::Completed, phase);
    assert!(matches!(action, Action::Finish));
}

#[test]
fn headless_run_finishes_on_a_callback_without_exchanging() {
    let (phase, action) = step(
        Phase::AwaitingCallback,
        Mode::Headless,
        true,
        Event::CodeReceived("abc123".to_string()),
    );

    assert_eq!(Phase::Completed, phase);
    assert!(matches!(action, Action::Finish));
}

#[test]
fn timeout_is_ignored_in_exchange_mode() {
    let (phase, action) = step(
        Phase::AwaitingCallback,
        Mode::InteractiveExchange,
        true,
        Event::IdleTimeout,
    );

    assert_eq!(Phase::AwaitingCallback, phase);
    assert!(matches!(action, Action::Ignore));
}
