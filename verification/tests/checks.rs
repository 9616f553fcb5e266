use vault_kms_provider::checks::health::health_check;
use vault_kms_provider::checks::readiness::readiness_check;
use vault_kms_provider::checks::{checks, Response, StatusCode};
use vault_kms_provider::utilities::text::contains;

#[test]
fn ready_returns_ok_if_socket_exists() {
    let resp = checks("/ready", true);
    assert_eq!(resp.status, StatusCode::Okay);
}

#[test]
fn ready_returns_error_status_if_socket_does_not_exist() {
    let resp = checks("/ready", false);
    assert_eq!(resp.status, StatusCode::InternalServerError);
}

#[test]
fn health_returns_ok_if_app_is_working() {
    let resp = checks("/health", true);
    assert_eq!(resp.status, StatusCode::Okay);
    assert_eq!(checks("/health", false).status, StatusCode::Okay);
}

#[test]
fn returns_not_found_if_no_matching_path_exists() {
    let resp = checks("/invalid", true);
    assert_eq!(resp.status, StatusCode::NotFound);
    assert_eq!(
        resp,
        Response {
            status: StatusCode::NotFound,
            body: "Not found".to_string()
        }
    );
}

#[test]
fn returns_ok_if_socket_exists() {
    let resp = readiness_check(true);
    assert_eq!(resp.status, StatusCode::Okay);
}

#[test]
fn returns_error_status_if_socket_does_not_exist() {
    let resp = readiness_check(false);
    assert_eq!(resp.status, StatusCode::InternalServerError);
    assert_eq!(resp.body, "Not ready");
}

#[test]
fn readiness_is_asked_before_health() {
    assert_eq!(
        checks("/health/ready", false).status,
        StatusCode::InternalServerError
    );
    assert_eq!(checks("/already", true), readiness_check(true));
    assert_eq!(checks("/healthz", false), health_check());
    assert_eq!(health_check().body, "OK");
}

#[test]
fn status_codes_have_their_numbers() {
    assert_eq!(StatusCode::Okay.as_u16(), 200);
    assert_eq!(StatusCode::NotFound.as_u16(), 404);
    assert_eq!(StatusCode::InternalServerError.as_u16(), 500);
}

#[test]
fn finds_a_text_inside_another() {
    assert!(contains("/ready", "ready"));
    assert!(contains("ready", "ready"));
    assert!(contains("xreadyx", "ready"));
    assert!(contains("anything", ""));
    assert!(contains("", ""));
    assert!(!contains("read", "ready"));
    assert!(!contains("", "ready"));
    assert!(!contains("/READY", "ready"));
    assert!(contains("/h\u{e9}alth/health", "health"));
    assert!(!contains("/h\u{e9}alth", "health"));
}
