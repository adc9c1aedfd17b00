use chopped::text::push_decimal;
use chopped::AssetFetchError;

#[test]
fn path_failure_message() {
    let e = AssetFetchError::PathFailure { path: "assets/level1.json".to_string() };
    assert_eq!(e.message(), "failed to request asset 'assets/level1.json'");
}

#[test]
fn http_error_message() {
    let e = AssetFetchError::HTTPError { path: "assets/player.png".to_string(), status: 404 };
    assert_eq!(e.message(), "asset 'assets/player.png' returned HTTP 404");
}

#[test]
fn http_error_message_extreme_statuses() {
    let zero = AssetFetchError::HTTPError { path: "a".to_string(), status: 0 };
    assert_eq!(zero.message(), "asset 'a' returned HTTP 0");
    let max = AssetFetchError::HTTPError { path: "a".to_string(), status: 65535 };
    assert_eq!(max.message(), "asset 'a' returned HTTP 65535");
    let ten = AssetFetchError::HTTPError { path: "a".to_string(), status: 10 };
    assert_eq!(ten.message(), "asset 'a' returned HTTP 10");
}

#[test]
fn binary_read_failure_message() {
    let e = AssetFetchError::BinaryReadFailure { path: "assets/song.ogg".to_string() };
    assert_eq!(e.message(), "failed to read asset 'assets/song.ogg' body");
}

#[test]
fn every_message_names_its_path() {
    let path = "assets/sprites/enemy one.png".to_string();
    let errors = vec![
        AssetFetchError::PathFailure { path: path.clone() },
        AssetFetchError::HTTPError { path: path.clone(), status: 503 },
        AssetFetchError::BinaryReadFailure { path: path.clone() },
    ];
    for e in errors {
        assert!(e.message().contains(&path));
    }
}

#[test]
fn decimal_appends_digits() {
    let mut s = "HTTP ".to_string();
    push_decimal(&mut s, 1203);
    assert_eq!(s, "HTTP 1203");
    let mut z = String::new();
    push_decimal(&mut z, 0);
    assert_eq!(z, "0");
}
