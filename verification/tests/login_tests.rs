use urbit_session::error::UrbitAPIError;
use urbit_session::interface::{login_body, login_outcome, login_url, ShipInterface};

#[test]
fn login_targets_the_login_endpoint() {
    assert_eq!(login_url("http://0.0.0.0:8080"), "http://0.0.0.0:8080/~/login");
}

#[test]
fn login_request_body_carries_the_code() {
    assert_eq!(
        login_body("lidlut-tabwed-pillex-ridrup"),
        "password=lidlut-tabwed-pillex-ridrup"
    );
}

#[test]
fn successful_login_keeps_credential_verbatim_and_derives_identity() {
    let cookie = "urbauth-~zod=ABC123; Path=/";
    let tokens = login_outcome(204, Some(cookie.to_string())).unwrap();
    assert_eq!(tokens.session_auth, cookie);
    assert_eq!(tokens.ship_name, "zod");
    assert!(!tokens.ship_name.contains('='));
    assert!(!tokens.ship_name.is_empty());
}

#[test]
fn login_fails_on_status_other_than_204() {
    let cookie = "urbauth-~zod=ABC123; Path=/";
    let r = login_outcome(400, Some(cookie.to_string()));
    assert!(matches!(r, Err(UrbitAPIError::FailedToLogin)));
    let r = login_outcome(200, Some(cookie.to_string()));
    assert!(matches!(r, Err(UrbitAPIError::FailedToLogin)));
}

#[test]
fn login_fails_without_set_cookie() {
    let r = login_outcome(204, None);
    assert!(matches!(r, Err(UrbitAPIError::FailedToLogin)));
}

#[test]
fn login_fails_on_malformed_credential() {
    let r = login_outcome(204, Some("no delimiter here".to_string()));
    assert!(matches!(r, Err(UrbitAPIError::FailedToLogin)));
    let r = login_outcome(204, Some("x=y".to_string()));
    assert!(matches!(r, Err(UrbitAPIError::FailedToLogin)));
}

#[test]
fn transport_failure_is_a_network_error() {
    // Nothing listens on this port, so the login exchange cannot complete.
    let r = ShipInterface::new("http://127.0.0.1:1", "lidlut-tabwed-pillex-ridrup");
    assert!(matches!(r, Err(UrbitAPIError::NetworkError(_))));
}

#[test]
fn error_kinds_describe_themselves() {
    assert_eq!(UrbitAPIError::FailedToLogin.describe(), "failed to login");
    assert_eq!(
        UrbitAPIError::NetworkError("connection refused".to_string()).describe(),
        "connection refused"
    );
}
