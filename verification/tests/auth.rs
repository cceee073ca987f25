use starriver::adapter::user_principal::password_outcome;
use starriver::adapter::user_principal::{found_principal, UsernamePasswordCredential};
use starriver::adapter::username_flow::{FormLoginCmd, UsernameFlow};
use starriver::adapter::username_password_authentictor::TokioTimingAttackProtection;
use starriver::adapter::username_password_flow::{
    FormLoginCmd as PasswordFormLoginCmd, UsernamePasswordFlow,
};
use starriver::application::user_service::{
    after_settle, on_bad_password_recorded, on_lookup, on_password_check, settle,
    verification_action, verification_answer, AuthStep, PasswordCheck, VerificationAction,
};
use starriver::base::authentication::{
    session_cookie, AuthenticatedUser, AuthenticationError, HttpMethod, SESSION_LIFETIME_NANOS,
};
use starriver::base::db::{after_end, tx_end_for, TxEnd};
use starriver::base::error::Cause;

#[test]
fn credential_needs_user_name_and_password() {
    assert!(matches!(
        UsernamePasswordCredential::new(String::new(), "p".to_string()),
        Err(AuthenticationError::UsernameEmpty)
    ));
    assert!(matches!(
        UsernamePasswordCredential::new(String::new(), String::new()),
        Err(AuthenticationError::UsernameEmpty)
    ));
    assert!(matches!(
        UsernamePasswordCredential::new("u".to_string(), String::new()),
        Err(AuthenticationError::PasswordEmpty)
    ));
    let c = UsernamePasswordCredential::new("u".to_string(), "p".to_string()).unwrap();
    assert_eq!(c.username(), "u");
    assert_eq!(c.password(), "p");
}

#[test]
fn username_flow_extracts_credential() {
    let flow = UsernameFlow {};
    let form = FormLoginCmd { username: "alice".to_string(), password: "secret".to_string() };
    let c = flow.extract_credential(form).unwrap();
    assert_eq!(c.username(), "alice");
    let form = FormLoginCmd { username: "alice".to_string(), password: String::new() };
    assert!(matches!(flow.extract_credential(form), Err(AuthenticationError::PasswordEmpty)));
}

#[test]
fn username_flow_opens_static_users_and_posts() {
    let flow = UsernameFlow {};
    assert!(!flow.is_access_require_authentication("/static/app.js", HttpMethod::Get));
    assert!(!flow.is_access_require_authentication("/users", HttpMethod::Get));
    assert!(!flow.is_access_require_authentication("/articles", HttpMethod::Post));
    assert!(flow.is_access_require_authentication("/articles", HttpMethod::Delete));
    assert!(!flow.is_access_require_authentication("/login", HttpMethod::Post));
}

#[test]
fn username_password_flow_opens_gets_and_static() {
    let flow = UsernamePasswordFlow {};
    assert!(!flow.is_access_require_authentication("/articles", HttpMethod::Get));
    assert!(!flow.is_access_require_authentication("/static/x", HttpMethod::Post));
    assert!(flow.is_access_require_authentication("/articles", HttpMethod::Put));
    assert!(!flow.is_authenticate_request("/login/", HttpMethod::Post));
}

#[test]
fn session_cookie_lasts_an_hour() {
    let c = session_cookie("{\"id\":1}".to_string(), 1_000);
    assert_eq!(c.name, "id");
    assert_eq!(c.value, "{\"id\":1}");
    assert!(c.http_only && !c.secure);
    assert_eq!(c.path, "/");
    assert_eq!(c.expires_at, 1_000 + 3_600_000_000_000);
    assert_eq!(SESSION_LIFETIME_NANOS, 3_600_000_000_000);
}

#[test]
fn login_success_issues_cookie_from_now() {
    let before = time::OffsetDateTime::now_utc().unix_timestamp_nanos();
    let c = UsernamePasswordFlow {}.on_authenticate_success("u".to_string()).unwrap();
    let after = time::OffsetDateTime::now_utc().unix_timestamp_nanos();
    assert_eq!(c.value, "u");
    assert!(c.expires_at >= before + SESSION_LIFETIME_NANOS);
    assert!(c.expires_at <= after + SESSION_LIFETIME_NANOS);
    let c = UsernameFlow {}.on_authenticate_success("v".to_string()).unwrap();
    assert_eq!(c.name, "id");
    assert!(c.expires_at >= before + SESSION_LIFETIME_NANOS);
}

#[test]
fn cookie_names_other_than_id_do_not_authenticate() {
    let flow = UsernameFlow {};
    assert!(!flow.is_authenticated(&vec!["session".to_string(), "ID".to_string()]));
    assert!(flow.is_authenticated(&vec!["theme".to_string(), "id".to_string()]));
}

#[test]
fn failed_login_answers() {
    let flow = UsernamePasswordFlow {};
    assert_eq!(
        flow.on_authenticate_failure(AuthenticationError::BadPassword),
        (Cause::ClientBadRequest, "username or password incorrect")
    );
    assert_eq!(
        flow.on_authenticate_failure(AuthenticationError::UsernameNotFound),
        (Cause::ClientBadRequest, "username or password incorrect")
    );
    assert_eq!(
        flow.on_authenticate_failure(AuthenticationError::InnerError),
        (Cause::InnerError, "authentication failed")
    );
    assert_eq!(
        flow.on_authenticate_failure(AuthenticationError::UsernameEmpty),
        (Cause::InnerError, "authentication failed")
    );
}

#[test]
fn credentials_are_taken_as_sent() {
    let flow = UsernamePasswordFlow {};
    let c = flow.extract_credential(PasswordFormLoginCmd {
        username: String::new(),
        password: "p".to_string(),
    });
    assert_eq!(c.username, "");
    assert_eq!(c.password, "p");
}

#[test]
fn timing_protection_fills_up_the_delay() {
    let p = TokioTimingAttackProtection { delay: 500 };
    assert_eq!(p.delay(200), 300);
    assert_eq!(p.delay(500), 0);
    assert_eq!(p.delay(900), 0);
}

#[test]
fn login_decisions() {
    assert_eq!(on_lookup::<u8, ()>(Err(())).unwrap_err(), AuthenticationError::InnerError);
    assert_eq!(on_lookup::<u8, ()>(Ok(None)).unwrap_err(), AuthenticationError::UsernameNotFound);
    assert_eq!(on_lookup::<u8, ()>(Ok(Some(4))).unwrap(), 4);
    match on_password_check(9, "alice", "a@b.c", PasswordCheck::Matched) {
        AuthStep::Grant(u) => {
            assert_eq!(u.id, 9);
            assert_eq!(u.username, "alice");
            assert_eq!(u.email, "a@b.c");
            assert!(u.authorities.is_empty());
        },
        other => panic!("unexpected step {:?}", other),
    }
    assert!(matches!(
        on_password_check(9, "alice", "a@b.c", PasswordCheck::BadPassword),
        AuthStep::RecordBadPassword
    ));
    assert!(matches!(
        on_password_check(9, "alice", "a@b.c", PasswordCheck::Failed),
        AuthStep::Refuse(AuthenticationError::InnerError)
    ));
    assert_eq!(on_bad_password_recorded(true), AuthenticationError::BadPassword);
    assert_eq!(on_bad_password_recorded(false), AuthenticationError::InnerError);
}

#[test]
fn login_transaction_ends() {
    let user = AuthenticatedUser {
        id: 1,
        username: "a".to_string(),
        email: "e".to_string(),
        authorities: vec![],
    };
    assert_eq!(settle(&Ok(user)), TxEnd::Commit);
    assert_eq!(settle(&Err(AuthenticationError::BadPassword)), TxEnd::Commit);
    assert_eq!(settle(&Err(AuthenticationError::InnerError)), TxEnd::Rollback);
    assert_eq!(
        after_settle(Err(AuthenticationError::BadPassword), false).unwrap_err(),
        AuthenticationError::InnerError
    );
    assert_eq!(
        after_settle(Err(AuthenticationError::BadPassword), true).unwrap_err(),
        AuthenticationError::BadPassword
    );
}

#[test]
fn units_of_work_end() {
    assert_eq!(tx_end_for::<u8, ()>(&Ok(1)), TxEnd::Commit);
    assert_eq!(tx_end_for::<u8, ()>(&Err(())), TxEnd::Rollback);
    assert_eq!(after_end::<u8, &str>(Ok(1), false, "commit failed"), Err("commit failed"));
    assert_eq!(after_end::<u8, &str>(Ok(1), true, "commit failed"), Ok(1));
}

#[test]
fn verification_mail_only_for_new_addresses() {
    assert_eq!(verification_action::<()>(Ok(false)), VerificationAction::Send);
    assert_eq!(verification_action::<()>(Ok(true)), VerificationAction::Skip);
    assert_eq!(verification_action::<&str>(Err("db down")), VerificationAction::Skip);
}

#[test]
fn verification_request_always_succeeds() {
    assert!(verification_answer::<(), ()>(&Ok(false), &Some(Ok(()))).is_ok());
    assert!(verification_answer::<(), &str>(&Ok(false), &Some(Err("smtp down"))).is_ok());
    assert!(verification_answer::<(), ()>(&Ok(true), &None).is_ok());
    assert!(verification_answer::<&str, ()>(&Err("db down"), &None).is_ok());
}

#[test]
fn principal_lookup() {
    assert_eq!(found_principal::<u8, ()>(Err(())).unwrap_err(), AuthenticationError::Unknown);
    assert_eq!(
        found_principal::<u8, ()>(Ok(None)).unwrap_err(),
        AuthenticationError::UsernameNotFound
    );
    assert_eq!(found_principal::<u8, ()>(Ok(Some(2))).unwrap(), 2);
}

#[test]
fn stored_hash_problems_are_bad_passwords() {
    assert_eq!(
        password_outcome::<u8, &str, &str>(1, Err("bad hash"), Ok(())).unwrap_err(),
        AuthenticationError::BadPassword
    );
    assert_eq!(
        password_outcome::<u8, &str, &str>(1, Ok(()), Err("mismatch")).unwrap_err(),
        AuthenticationError::BadPassword
    );
    assert_eq!(password_outcome::<u8, &str, &str>(1, Ok(()), Ok(())).unwrap(), 1);
}
