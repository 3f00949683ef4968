use splashgate::auth::body_result;
use splashgate::auth::check_login_status;
use splashgate::auth::check_refresh_status;
use splashgate::auth::login_transport_error;
use splashgate::auth::login_url;
use splashgate::auth::logout;
use splashgate::auth::refresh_transport_error;
use splashgate::auth::refresh_url;
use splashgate::auth::LoginRequest;
use splashgate::auth::LoginResponse;

#[test]
fn successful_login_returns_body_fields() {
    assert!(check_login_status(200, "200 OK").is_ok());
    let body = LoginResponse {
        access_token: "eyJhbGciOiJIUzI1NiJ9.payload.sig".to_string(),
        token_type: "Bearer".to_string(),
    };
    match body_result(Ok(body)) {
        Ok(token) => {
            assert_eq!(token.access_token, "eyJhbGciOiJIUzI1NiJ9.payload.sig");
            assert_eq!(token.token_type, "Bearer");
        }
        Err(m) => panic!("expected a token, got error: {}", m),
    }
}

#[test]
fn all_success_statuses_proceed() {
    for status in [200u16, 201, 204, 299] {
        assert!(check_login_status(status, "").is_ok());
        assert!(check_refresh_status(status).is_ok());
    }
}

#[test]
fn login_rejected_status_fails_with_code() {
    match check_login_status(404, "404 Not Found") {
        Err(m) => assert_eq!(m, "Échec de la connexion: 404 Not Found"),
        Ok(()) => panic!("status 404 must not succeed"),
    }
    assert!(check_login_status(199, "199 <unknown status code>").is_err());
    assert!(check_login_status(300, "300 Multiple Choices").is_err());
    assert!(check_login_status(500, "500 Internal Server Error").is_err());
}

#[test]
fn refresh_error_embeds_exact_status_code() {
    match check_refresh_status(401) {
        Err(m) => {
            assert_eq!(m, "Échec du refresh: HTTP_401");
            assert!(m.contains("HTTP_401"));
        }
        Ok(()) => panic!("status 401 must not succeed"),
    }
    match check_refresh_status(503) {
        Err(m) => assert_eq!(m, "Échec du refresh: HTTP_503"),
        Ok(()) => panic!("status 503 must not succeed"),
    }
}

#[test]
fn malformed_body_on_success_is_a_parse_error() {
    assert!(check_login_status(200, "200 OK").is_ok());
    let outcome = body_result(Err("expected value at line 1 column 1".to_string()));
    match outcome {
        Err(m) => assert_eq!(m, "Erreur de parsing de la réponse: expected value at line 1 column 1"),
        Ok(_) => panic!("a malformed body must not yield a token"),
    }
}

#[test]
fn transport_failures_carry_the_cause() {
    assert_eq!(
        login_transport_error("connection refused"),
        "Erreur de connexion: connection refused"
    );
    assert_eq!(
        refresh_transport_error("dns lookup failed"),
        "Erreur de refresh: dns lookup failed"
    );
}

#[test]
fn endpoint_urls_extend_the_base() {
    assert_eq!(
        login_url("https://api.example.com/api/v1"),
        "https://api.example.com/api/v1/auth/login"
    );
    assert_eq!(
        refresh_url("https://api.example.com/api/v1"),
        "https://api.example.com/api/v1/auth/refresh"
    );
}

#[test]
fn logout_always_succeeds() {
    assert_eq!(logout(), Ok(()));
}

#[test]
fn credentials_hold_what_they_were_given() {
    let creds = LoginRequest {
        login: "user@example.com".to_string(),
        password: "p4ssw0rd".to_string(),
    };
    assert_eq!(creds.login, "user@example.com");
    assert_eq!(creds.password, "p4ssw0rd");
}
