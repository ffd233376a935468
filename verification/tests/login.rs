use cert_updater::{
    login_call, login_outcome, login_url, Error, ErrorKind, LoginRequest, LoginResult,
    LoginResultData,
};

fn answer(success: bool, tid: Option<&str>) -> LoginResult {
    LoginResult { data: LoginResultData { _tid_: tid.map(String::from) }, success }
}

#[test]
fn login_url_is_the_fixed_path_under_the_host() {
    assert_eq!(login_url("192.0.2.1"), "https://192.0.2.1/data/login.json");
    assert_eq!(login_url("router.example:8443"), "https://router.example:8443/data/login.json");
}

#[test]
fn login_url_of_an_empty_host_keeps_the_frame() {
    assert_eq!(login_url(""), "https:///data/login.json");
}

#[test]
fn login_call_carries_the_account_and_the_write_operation() {
    let call = login_call("192.0.2.1", "admin", "secret");
    assert_eq!(call.url, "https://192.0.2.1/data/login.json");
    assert!(
        call.body
            == LoginRequest {
                username: String::from("admin"),
                password: String::from("secret"),
                operation: String::from("write"),
            }
    );
}

#[test]
fn login_call_does_not_swap_username_and_password() {
    let call = login_call("h", "user", "pass");
    assert_eq!(call.body.username, "user");
    assert_eq!(call.body.password, "pass");
    assert_eq!(call.body.operation, "write");
}

#[test]
fn login_outcome_returns_the_token_exactly() {
    assert_eq!(login_outcome(answer(true, Some("abc123"))), Ok(String::from("abc123")));
    assert_eq!(
        login_outcome(answer(true, Some(" a&b=c? \u{e9}"))),
        Ok(String::from(" a&b=c? \u{e9}"))
    );
}

#[test]
fn login_outcome_accepts_an_empty_token() {
    assert_eq!(login_outcome(answer(true, Some(""))), Ok(String::new()));
}

#[test]
fn login_outcome_rejects_failure_whatever_the_data() {
    assert_eq!(login_outcome(answer(false, None)), Err(Error::LoginRejected));
    assert_eq!(login_outcome(answer(false, Some("abc123"))), Err(Error::LoginRejected));
    assert_eq!(login_outcome(answer(false, Some(""))), Err(Error::LoginRejected));
}

#[test]
fn login_outcome_fails_on_success_without_token() {
    let outcome = login_outcome(answer(true, None));
    assert_eq!(outcome, Err(Error::LoginWithoutToken));
    assert_eq!(outcome.unwrap_err().kind(), ErrorKind::Authentication);
}

#[test]
fn login_failures_are_authentication_errors() {
    assert_eq!(login_outcome(answer(false, None)).unwrap_err().kind(), ErrorKind::Authentication);
    assert_eq!(
        login_outcome(answer(false, None)).unwrap_err().message(),
        "Failed to login"
    );
}
