use chopped::web::{start_fetch, step, web_request_path, FetchAction, FetchEvent, FetchState};
use chopped::AssetFetchError;

fn sent_path(action: &FetchAction) -> String {
    match action {
        FetchAction::SendGet { path } => path.clone(),
        _ => panic!("expected a GET request"),
    }
}

fn outcome(action: FetchAction) -> Result<Vec<u8>, AssetFetchError> {
    match action {
        FetchAction::Complete { outcome } => outcome,
        _ => panic!("expected the fetch to be over"),
    }
}

#[test]
fn request_path_is_under_assets() {
    assert_eq!(web_request_path("sprites/player.png"), "assets/sprites/player.png");
    assert_eq!(web_request_path(""), "assets/");
}

#[test]
fn start_sends_get_for_asset_path() {
    let (state, action) = start_fetch("level1.json");
    assert_eq!(sent_path(&action), "assets/level1.json");
    assert!(!state.is_finished());
    assert!(state.accepts(&FetchEvent::RequestFailed));
    assert!(state.accepts(&FetchEvent::Responded { ok: true, status: 200 }));
    assert!(!state.accepts(&FetchEvent::BodyFailed));
}

#[test]
fn failed_request_is_path_failure() {
    let (state, _) = start_fetch("level1.json");
    let (state, action) = step(state, FetchEvent::RequestFailed);
    assert!(state.is_finished());
    assert_eq!(
        outcome(action),
        Err(AssetFetchError::PathFailure { path: "assets/level1.json".to_string() })
    );
}

#[test]
fn bad_status_is_http_error() {
    let (state, _) = start_fetch("missing.png");
    let (state, action) = step(state, FetchEvent::Responded { ok: false, status: 404 });
    assert!(state.is_finished());
    assert_eq!(
        outcome(action),
        Err(AssetFetchError::HTTPError { path: "assets/missing.png".to_string(), status: 404 })
    );
}

#[test]
fn good_status_reads_body_then_returns_bytes() {
    let (state, _) = start_fetch("data.bin");
    let (state, action) = step(state, FetchEvent::Responded { ok: true, status: 200 });
    assert!(matches!(action, FetchAction::ReadBody));
    assert!(matches!(state, FetchState::AwaitingBody { .. }));
    assert!(state.accepts(&FetchEvent::BodyFailed));
    assert!(!state.accepts(&FetchEvent::RequestFailed));
    let (state, action) = step(state, FetchEvent::BodyRead { bytes: vec![1, 2, 3, 255] });
    assert!(state.is_finished());
    assert_eq!(outcome(action), Ok(vec![1, 2, 3, 255]));
}

#[test]
fn unreadable_body_is_binary_read_failure() {
    let (state, _) = start_fetch("data.bin");
    let (state, _) = step(state, FetchEvent::Responded { ok: true, status: 200 });
    let (state, action) = step(state, FetchEvent::BodyFailed);
    assert!(state.is_finished());
    assert_eq!(
        outcome(action),
        Err(AssetFetchError::BinaryReadFailure { path: "assets/data.bin".to_string() })
    );
}

#[test]
fn finished_fetch_accepts_nothing() {
    let state = FetchState::Finished;
    assert!(!state.accepts(&FetchEvent::RequestFailed));
    assert!(!state.accepts(&FetchEvent::BodyRead { bytes: vec![] }));
}

#[test]
fn errors_name_requested_path() {
    let requested = "assets/x/y.png".to_string();
    let (s, _) = start_fetch("x/y.png");
    let (_, a) = step(s, FetchEvent::Responded { ok: false, status: 500 });
    let e = outcome(a).unwrap_err();
    assert!(e.message().contains(&requested));
    let (s, _) = start_fetch("x/y.png");
    let (s, _) = step(s, FetchEvent::Responded { ok: true, status: 204 });
    let (_, a) = step(s, FetchEvent::BodyFailed);
    let e = outcome(a).unwrap_err();
    assert!(e.message().contains(&requested));
}
