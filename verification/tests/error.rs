use cert_updater::{Error, ErrorKind};

#[test]
fn every_failure_has_its_family() {
    assert_eq!(Error::FileUnreadable { detail: String::from("x") }.kind(), ErrorKind::Io);
    assert_eq!(
        Error::LoginUnanswered { detail: String::from("x") }.kind(),
        ErrorKind::Authentication
    );
    assert_eq!(Error::LoginRejected.kind(), ErrorKind::Authentication);
    assert_eq!(Error::LoginWithoutToken.kind(), ErrorKind::Authentication);
    assert_eq!(Error::UploadUnanswered { detail: String::from("x") }.kind(), ErrorKind::Upload);
    assert_eq!(Error::UploadRejected.kind(), ErrorKind::Upload);
    assert_eq!(Error::OutOfTurn.kind(), ErrorKind::Misuse);
}

#[test]
fn refusals_by_the_appliance_get_fixed_sentences() {
    assert_eq!(Error::LoginRejected.message(), "Failed to login");
    assert_eq!(Error::LoginWithoutToken.message(), "Failed to login: no session token");
    assert_eq!(Error::UploadRejected.message(), "Failed to upload cert");
    assert_eq!(Error::OutOfTurn.message(), "Event does not answer the pending action");
}

#[test]
fn outside_failures_are_reported_in_their_own_words() {
    let detail = String::from("No such file or directory (os error 2)");
    assert_eq!(Error::FileUnreadable { detail: detail.clone() }.message(), detail);
    assert_eq!(
        Error::LoginUnanswered { detail: String::from("connection refused") }.message(),
        "connection refused"
    );
    assert_eq!(
        Error::UploadUnanswered { detail: String::from("expected value at line 1") }.message(),
        "expected value at line 1"
    );
    assert_eq!(Error::FileUnreadable { detail: String::new() }.message(), "");
}
