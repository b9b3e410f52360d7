use matrix_session::auth::{
    check_recovery_key, logout_result, plan_login, sanitize_user_id, LoginResponse,
};
use matrix_session::error::{InputProblem, SessionError};
use matrix_session::state::MatrixState;
use matrix_session::text::{has_prefix, trimmed};
use std::path::PathBuf;

#[test]
fn sanitize_strips_sigil_and_separators() {
    assert_eq!(sanitize_user_id("@alice:example.org"), "alice_example.org");
    assert_eq!(sanitize_user_id("a/b\\c:d@e"), "a_b_c_de");
    assert_eq!(sanitize_user_id(""), "");
    assert_eq!(sanitize_user_id("plain"), "plain");
}

#[test]
fn trimmed_removes_outer_whitespace() {
    assert_eq!(trimmed("  alice \t\n"), "alice");
    assert_eq!(trimmed("a b"), "a b");
    assert_eq!(trimmed(" \u{3000} "), "");
    assert_eq!(trimmed(""), "");
}

#[test]
fn has_prefix_compares_characters() {
    assert!(has_prefix("https://x", "https://"));
    assert!(!has_prefix("http", "http://"));
    assert!(has_prefix("abc", ""));
}

#[test]
fn login_without_scheme_is_invalid_input() {
    let r = plan_login("example.org", "alice", "pw");
    assert_eq!(r.err(), Some(SessionError::InvalidInput(InputProblem::MissingScheme)));
    let r = plan_login("ftp://example.org", "alice", "pw");
    assert_eq!(r.err(), Some(SessionError::InvalidInput(InputProblem::MissingScheme)));
    let r = plan_login(" https://example.org", "alice", "pw");
    assert_eq!(r.err(), Some(SessionError::InvalidInput(InputProblem::MissingScheme)));
}

#[test]
fn login_with_missing_field_is_invalid_input() {
    let missing = Some(SessionError::InvalidInput(InputProblem::MissingField));
    assert_eq!(plan_login("   ", "alice", "pw").err(), missing);
    assert_eq!(plan_login("https://example.org", " ", "pw").err(), missing);
    assert_eq!(plan_login("https://example.org", "alice", "").err(), missing);
    // Missing fields are reported before a missing scheme.
    assert_eq!(plan_login("example.org", "", "pw").err(), missing);
}

#[test]
fn login_plan_trims_and_names_directory() {
    let plan = plan_login("https://example.org  ", " @alice:example.org ", " pw ").ok().unwrap();
    assert_eq!(plan.homeserver, "https://example.org");
    assert_eq!(plan.username, "@alice:example.org");
    assert_eq!(plan.password, " pw ");
    assert_eq!(plan.session_dir, " alice_example.org ");
    let plan = plan_login("http://localhost:8008", "bob", "pw").ok().unwrap();
    assert_eq!(plan.homeserver, "http://localhost:8008");
    assert_eq!(plan.session_dir, "bob");
}

#[test]
fn same_account_gets_same_directory() {
    let a = plan_login("https://example.org", "@alice:example.org", "one").ok().unwrap();
    let b = plan_login("https://other.org", "@alice:example.org", "two").ok().unwrap();
    assert_eq!(a.session_dir, b.session_dir);
}

#[test]
fn recovery_key_must_not_be_blank() {
    assert_eq!(
        check_recovery_key("  "),
        Err(SessionError::InvalidInput(InputProblem::MissingField))
    );
    assert_eq!(check_recovery_key("EsTj 3yST"), Ok(()));
}

#[test]
fn login_response_reports_success() {
    let r = LoginResponse::logged_in("@alice:example.org".to_string(), "DEV".to_string());
    assert!(r.success);
    assert_eq!(r.user_id, "@alice:example.org");
    assert_eq!(r.device_id, "DEV");
    assert_eq!(r.message, "Login successful - encryption enabled");
}

#[test]
fn logout_reports_server_failure_first() {
    assert_eq!(logout_result(Ok(()), Ok(())), Ok(()));
    assert_eq!(
        logout_result(Err("server".to_string()), Err("disk".to_string())),
        Err(SessionError::LogoutFailed("server".to_string()))
    );
    assert_eq!(
        logout_result(Ok(()), Err("disk".to_string())),
        Err(SessionError::StorageFailed("disk".to_string()))
    );
}

#[test]
fn new_state_has_no_session() {
    let s = MatrixState::new(PathBuf::from("/tmp/data"));
    assert_eq!(s.check_session(), None);
    assert_eq!(s.client().err(), Some(SessionError::NotLoggedIn));
    assert_eq!(s.data_dir(), &PathBuf::from("/tmp/data"));
    assert_eq!(s.verification.active_flow(), Err(SessionError::NoActiveVerification));
}

#[test]
fn logout_while_logged_out_clears_flow() {
    let mut s = MatrixState::new(PathBuf::from("/tmp/data"));
    s.verification.begin("flow-1".to_string());
    assert!(s.end_session().is_none());
    assert_eq!(s.check_session(), None);
    assert_eq!(s.verification.active_flow(), Err(SessionError::NoActiveVerification));
}
