use registration::code::generate_code;
use registration::dispatch::{classify_smtp_error, prepare_email, render_body, DispatchError};
use registration::repository::{classify_storage_error, AccountStore, RepositoryError};
use registration::secret::prepare_secret;
use registration::workflow::{
    prepare, register_finish, register_submit, register_with_transport, repository_error_outcome,
    response_for, status_class_for, Outcome, RegisterStep, RegistrationRequest, StatusClass,
};

fn request(email: &str) -> RegistrationRequest {
    RegistrationRequest {
        email: email.to_string(),
        password: "p1".to_string(),
        fullname: "A".to_string(),
        discord: "a#1".to_string(),
        age: 20,
    }
}

#[test]
fn code_is_six_alphanumeric_chars() {
    for _ in 0..100 {
        let code = generate_code();
        assert_eq!(code.chars().count(), 6);
        assert!(code.chars().all(|c| c.is_ascii_alphanumeric()));
    }
}

#[test]
fn codes_are_not_a_shared_constant() {
    let first = generate_code();
    let mut saw_different = false;
    for _ in 0..20 {
        if generate_code() != first {
            saw_different = true;
        }
    }
    assert!(saw_different);
}

#[test]
fn secret_is_never_the_plaintext() {
    assert_ne!(prepare_secret("p1"), "p1");
    assert_eq!(prepare_secret("p1"), "hashed_p1");
    assert_eq!(prepare_secret(""), "hashed_");
    assert_ne!(prepare_secret("hashed_"), "hashed_");
}

#[test]
fn create_persists_one_unverified_row() {
    let mut store = AccountStore::new();
    let r = store.create(
        "a@x.com".to_string(),
        "hashed_p1".to_string(),
        "A".to_string(),
        "a#1".to_string(),
        20,
        "AbC123".to_string(),
    );
    assert_eq!(r, Ok(0));
    assert_eq!(store.len(), 1);
    let account = store.account_at(0).unwrap();
    assert_eq!(account.email, "a@x.com");
    assert_eq!(account.stored_secret, "hashed_p1");
    assert_eq!(account.fullname, "A");
    assert_eq!(account.discord, "a#1");
    assert_eq!(account.age, 20);
    assert_eq!(account.verification_code.as_deref(), Some("AbC123"));
    assert!(!account.is_verified);
}

#[test]
fn create_refuses_a_taken_email_and_writes_nothing() {
    let mut store = AccountStore::new();
    store
        .create(
            "a@x.com".to_string(),
            "s1".to_string(),
            "A".to_string(),
            "a#1".to_string(),
            20,
            "AAAAAA".to_string(),
        )
        .unwrap();
    let r = store.create(
        "a@x.com".to_string(),
        "s2".to_string(),
        "B".to_string(),
        "b#2".to_string(),
        21,
        "BBBBBB".to_string(),
    );
    assert_eq!(r, Err(RepositoryError::DuplicateEmail));
    assert_eq!(store.len(), 1);
    assert_eq!(store.account_at(0).unwrap().fullname, "A");
}

#[test]
fn storage_errors_are_classified_by_sqlstate() {
    assert_eq!(
        classify_storage_error(Some("23505".to_string()), "detail".to_string()),
        RepositoryError::DuplicateEmail
    );
    assert_eq!(
        classify_storage_error(Some("40001".to_string()), "detail".to_string()),
        RepositoryError::Other("detail".to_string())
    );
    assert_eq!(
        classify_storage_error(None, "connection refused".to_string()),
        RepositoryError::Other("connection refused".to_string())
    );
}

#[test]
fn rendered_body_shows_name_and_code() {
    let body = render_body("A", "AbC123");
    assert!(body.contains("Hello, <strong>A</strong>"));
    assert!(body.contains("<h1>AbC123</h1>"));
    assert!(body.contains("Welcome to Dutchville!"));
}

#[test]
fn prepare_email_accepts_a_well_formed_recipient() {
    let m = prepare_email("a@x.com", "A", "AbC123").unwrap();
    assert_eq!(m.to, "a@x.com");
    assert_eq!(m.to_name, "A");
    assert_eq!(m.subject, "Dutchville Account Verification");
    assert!(m.html_body.contains("AbC123"));
}

#[test]
fn prepare_email_rejects_a_malformed_recipient() {
    let r = prepare_email("not an address", "A", "AbC123");
    assert_eq!(r, Err(DispatchError::InvalidRecipient));
    assert_eq!(
        prepare_email("", "A", "AbC123"),
        Err(DispatchError::InvalidRecipient)
    );
}

#[test]
fn smtp_failures_are_classified_by_reply_code() {
    assert_eq!(classify_smtp_error(Some(535)), DispatchError::AuthenticationFailed);
    assert_eq!(classify_smtp_error(Some(530)), DispatchError::AuthenticationFailed);
    assert_eq!(classify_smtp_error(Some(550)), DispatchError::InvalidRecipient);
    assert_eq!(classify_smtp_error(Some(421)), DispatchError::TransportUnavailable);
    assert_eq!(classify_smtp_error(None), DispatchError::TransportUnavailable);
}

#[test]
fn preparation_never_keeps_the_plaintext() {
    let p = prepare(&request("a@x.com"));
    assert_eq!(p.email, "a@x.com");
    assert_eq!(p.stored_secret, "hashed_p1");
    assert_ne!(p.stored_secret, "p1");
    assert_eq!(p.verification_code.chars().count(), 6);
}

#[test]
fn outcome_mapping_matches_the_response_contract() {
    let ok = response_for(&Outcome::Complete);
    assert!(ok.success);
    assert_eq!(ok.message, "Check your email for verification code");
    let dup = response_for(&Outcome::DuplicateRejected);
    assert!(!dup.success);
    assert_eq!(dup.message, "Email already exists");
    let db = response_for(&Outcome::PersistenceFailed);
    assert!(!db.success);
    assert_eq!(db.message, "Database error");
    let mail = response_for(&Outcome::NotificationFailed);
    assert!(!mail.success);
    assert_eq!(mail.message, "Failed to send verification email");

    assert_eq!(status_class_for(&Outcome::Complete), StatusClass::Success);
    assert_eq!(status_class_for(&Outcome::DuplicateRejected), StatusClass::ClientError);
    assert_eq!(status_class_for(&Outcome::PersistenceFailed), StatusClass::ServerError);
    assert_eq!(status_class_for(&Outcome::NotificationFailed), StatusClass::ServerError);
}

#[test]
fn repository_errors_map_to_their_terminal_states() {
    assert_eq!(
        repository_error_outcome(&RepositoryError::DuplicateEmail),
        Outcome::DuplicateRejected
    );
    assert_eq!(
        repository_error_outcome(&RepositoryError::Other("boom".to_string())),
        Outcome::PersistenceFailed
    );
    assert_eq!(register_finish(Ok(())), Outcome::Complete);
    assert_eq!(
        register_finish(Err(DispatchError::TransportUnavailable)),
        Outcome::NotificationFailed
    );
}

#[test]
fn submit_of_a_taken_email_requests_no_dispatch() {
    let mut store = AccountStore::new();
    register_with_transport(&mut store, &request("a@x.com"), true);
    let step = register_submit(&mut store, &request("a@x.com"));
    match step {
        RegisterStep::Done(t) => assert_eq!(t, Outcome::DuplicateRejected),
        RegisterStep::Dispatch(_) => panic!("dispatch requested for a duplicate"),
    }
    assert_eq!(store.len(), 1);
}

#[test]
fn scenario_first_submission_succeeds_second_is_rejected() {
    let mut store = AccountStore::new();
    let first = register_with_transport(&mut store, &request("a@x.com"), true);
    assert!(first.success);
    let second = register_with_transport(&mut store, &request("a@x.com"), true);
    assert!(!second.success);
    assert_eq!(second.message, "Email already exists");
    assert_eq!(store.len(), 1);
    let email = "a@x.com".to_string();
    let row = store.find_by_email(&email).unwrap();
    assert_eq!(row.email, "a@x.com");
}

#[test]
fn scenario_transport_outage_keeps_the_row_and_reports_failure() {
    let mut store = AccountStore::new();
    let resp = register_with_transport(&mut store, &request("a@x.com"), false);
    assert!(!resp.success);
    assert_eq!(resp.message, "Failed to send verification email");
    assert_eq!(store.len(), 1);
    let row = store.account_at(0).unwrap();
    assert!(!row.is_verified);
    let code = row.verification_code.as_ref().unwrap();
    assert_eq!(code.chars().count(), 6);
    assert!(code.chars().all(|c| c.is_ascii_alphanumeric()));
}
