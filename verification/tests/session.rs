use cert_updater::{
    login_call, upload_request, Action, Artifact, Credentials, Error, Event, LoginResult,
    LoginResultData, Session, UploadCertResult, CONFIRMATION,
};

fn account() -> Credentials {
    Credentials {
        host: String::from("192.0.2.1"),
        username: String::from("admin"),
        password: String::from("secret"),
    }
}

fn login_answer(success: bool, tid: Option<&str>) -> Event {
    Event::LoginReplied(LoginResult {
        data: LoginResultData { _tid_: tid.map(String::from) },
        success,
    })
}

fn logging_in() -> Session {
    Session::LoggingIn { host: String::from("192.0.2.1") }
}

fn reading(artifact: Artifact) -> Session {
    Session::Reading { host: String::from("192.0.2.1"), tid: String::from("abc123"), artifact }
}

fn uploading(artifact: Artifact) -> Session {
    Session::Uploading { host: String::from("192.0.2.1"), tid: String::from("abc123"), artifact }
}

#[test]
fn the_confirmation_is_the_fixed_sentence() {
    assert_eq!(CONFIRMATION, "Cert updated");
}

#[test]
fn a_run_begins_with_the_login_call() {
    let (session, action) = Session::begin(&account());
    assert_eq!(session, logging_in());
    assert!(action == Action::Login(login_call("192.0.2.1", "admin", "secret")));
    assert!(!session.is_closed());
}

#[test]
fn a_good_login_leads_to_the_certificate() {
    let (session, action) = logging_in().step(login_answer(true, Some("abc123")));
    assert_eq!(session, reading(Artifact::Certificate));
    assert!(action == Action::Read(Artifact::Certificate));
}

#[test]
fn the_session_keeps_the_token_as_it_came() {
    let (session, _) = logging_in().step(login_answer(true, Some("T0k/en+=")));
    assert_eq!(
        session,
        Session::Reading {
            host: String::from("192.0.2.1"),
            tid: String::from("T0k/en+="),
            artifact: Artifact::Certificate,
        }
    );
}

#[test]
fn a_rejected_login_closes_the_session() {
    let (session, action) = logging_in().step(login_answer(false, Some("abc123")));
    assert!(session.is_closed());
    assert!(action == Action::Abort(Error::LoginRejected));
}

#[test]
fn a_login_without_token_closes_the_session() {
    let (session, action) = logging_in().step(login_answer(true, None));
    assert!(session.is_closed());
    assert!(action == Action::Abort(Error::LoginWithoutToken));
}

#[test]
fn an_unanswered_login_closes_the_session() {
    let (session, action) = logging_in().step(Event::Failed(String::from("timed out")));
    assert!(session.is_closed());
    assert!(action == Action::Abort(Error::LoginUnanswered { detail: String::from("timed out") }));
}

#[test]
fn a_file_that_was_read_is_sent_at_once() {
    let (session, action) =
        reading(Artifact::Certificate).step(Event::FileRead(b"CERTDATA".to_vec()));
    assert_eq!(session, uploading(Artifact::Certificate));
    assert!(
        action
            == Action::Upload(upload_request(
                "192.0.2.1",
                "abc123",
                "httpsLoadCertificate.json",
                b"CERTDATA".to_vec()
            ))
    );
    let (session, action) = reading(Artifact::Key).step(Event::FileRead(b"KEYDATA".to_vec()));
    assert_eq!(session, uploading(Artifact::Key));
    assert!(
        action
            == Action::Upload(upload_request(
                "192.0.2.1",
                "abc123",
                "httpsLoadKey.json",
                b"KEYDATA".to_vec()
            ))
    );
}

#[test]
fn an_unreadable_file_closes_the_session() {
    let (session, action) =
        reading(Artifact::Key).step(Event::Failed(String::from("permission denied")));
    assert!(session.is_closed());
    assert!(
        action == Action::Abort(Error::FileUnreadable { detail: String::from("permission denied") })
    );
}

#[test]
fn an_accepted_certificate_leads_to_the_key() {
    let (session, action) = uploading(Artifact::Certificate)
        .step(Event::UploadReplied(UploadCertResult { success: true }));
    assert_eq!(session, reading(Artifact::Key));
    assert!(action == Action::Read(Artifact::Key));
}

#[test]
fn an_accepted_key_finishes_the_run() {
    let (session, action) =
        uploading(Artifact::Key).step(Event::UploadReplied(UploadCertResult { success: true }));
    assert!(session.is_closed());
    assert!(action == Action::Finish);
}

#[test]
fn a_refused_upload_closes_the_session() {
    for artifact in [Artifact::Certificate, Artifact::Key] {
        let (session, action) =
            uploading(artifact).step(Event::UploadReplied(UploadCertResult { success: false }));
        assert!(session.is_closed());
        assert!(action == Action::Abort(Error::UploadRejected));
    }
}

#[test]
fn an_unanswered_upload_closes_the_session() {
    let (session, action) =
        uploading(Artifact::Certificate).step(Event::Failed(String::from("reset by peer")));
    assert!(session.is_closed());
    assert!(
        action == Action::Abort(Error::UploadUnanswered { detail: String::from("reset by peer") })
    );
}

#[test]
fn an_event_out_of_turn_closes_the_session() {
    let strays = [
        (logging_in(), Event::FileRead(Vec::new())),
        (logging_in(), Event::UploadReplied(UploadCertResult { success: true })),
        (reading(Artifact::Certificate), login_answer(true, Some("other"))),
        (reading(Artifact::Key), Event::UploadReplied(UploadCertResult { success: true })),
        (uploading(Artifact::Certificate), Event::FileRead(b"KEYDATA".to_vec())),
        (uploading(Artifact::Key), login_answer(true, Some("other"))),
    ];
    for (session, event) in strays {
        let (session, action) = session.step(event);
        assert!(session.is_closed());
        assert!(action == Action::Abort(Error::OutOfTurn));
    }
}

#[test]
fn a_closed_session_stays_closed() {
    let events = [
        login_answer(true, Some("abc123")),
        Event::FileRead(b"CERTDATA".to_vec()),
        Event::UploadReplied(UploadCertResult { success: true }),
        Event::Failed(String::from("late")),
    ];
    for event in events {
        let (session, action) = Session::Closed.step(event);
        assert!(session.is_closed());
        assert!(action == Action::Abort(Error::OutOfTurn));
    }
}
