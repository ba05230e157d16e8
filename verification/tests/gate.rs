use auth_gate::gate::auth_decision;
use auth_gate::gate::auth_header_step;
use auth_gate::gate::authorize_current_user;
use auth_gate::gate::gate_outcome;
use auth_gate::gate::simulate_authentication;
use auth_gate::gate::AuthAction;
use auth_gate::gate::CurrentUser;
use auth_gate::gate::GateDecision;
use auth_gate::gate::VerifyEvent;
use auth_gate::STATUS_OK;
use auth_gate::STATUS_UNAUTHORIZED;

#[test]
fn missing_header_rejected() {
    let (status, user) = gate_outcome(None, false);
    assert_eq!(status, STATUS_UNAUTHORIZED);
    assert!(user.is_none());
    let (status, user) = gate_outcome(None, true);
    assert_eq!(status, STATUS_UNAUTHORIZED);
    assert!(user.is_none());
}

#[test]
fn valid_token_admitted() {
    let (status, user) = gate_outcome(Some("valid_token".to_string()), false);
    assert_eq!(status, STATUS_OK);
    assert_eq!(user.unwrap().username, "JohnDoe");
}

#[test]
fn wrong_token_rejected() {
    for wrong in ["invalid_token", "", "Bearer valid_token", "VALID_TOKEN", "valid_token "] {
        let (status, user) = gate_outcome(Some(wrong.to_string()), false);
        assert_eq!(status, STATUS_UNAUTHORIZED);
        assert!(user.is_none());
    }
}

#[test]
fn timeout_rejects_even_valid_token() {
    let (status, user) = gate_outcome(Some("valid_token".to_string()), true);
    assert_eq!(status, STATUS_UNAUTHORIZED);
    assert!(user.is_none());
}

#[test]
fn concurrent_valid_requests_all_succeed() {
    let outcomes: Vec<(u16, Option<CurrentUser>)> =
        (0..16).map(|_| gate_outcome(Some("valid_token".to_string()), false)).collect();
    for (status, user) in outcomes {
        assert_eq!(status, STATUS_OK);
        assert_eq!(user.unwrap().username, "JohnDoe");
    }
}

#[test]
fn header_step_missing_header() {
    assert!(matches!(auth_header_step(None), AuthAction::Reject));
}

#[test]
fn header_step_present_header() {
    match auth_header_step(Some("abc".to_string())) {
        AuthAction::Verify(token) => assert_eq!(token, "abc"),
        AuthAction::Reject => panic!("a present header must be verified"),
    }
}

#[test]
fn simulate_authentication_accepts_exact_token() {
    let user = simulate_authentication("valid_token");
    assert_eq!(user.unwrap().username, "JohnDoe");
}

#[test]
fn simulate_authentication_rejects_other_tokens() {
    assert!(simulate_authentication("wrong").is_none());
    assert!(simulate_authentication("").is_none());
    assert!(simulate_authentication("valid_token2").is_none());
}

#[test]
fn authorize_hands_through_completed_result() {
    let user = CurrentUser { username: "JohnDoe".to_string() };
    let out = authorize_current_user(VerifyEvent::Completed(Some(user)));
    assert_eq!(out.unwrap().username, "JohnDoe");
    let out = authorize_current_user(VerifyEvent::Completed(None));
    assert!(out.is_none());
}

#[test]
fn authorize_yields_nothing_on_timeout() {
    assert!(authorize_current_user(VerifyEvent::TimedOut).is_none());
}

#[test]
fn decision_admits_with_identity() {
    let user = CurrentUser { username: "JohnDoe".to_string() };
    match auth_decision(Some(user)) {
        GateDecision::Admit(u) => assert_eq!(u.username, "JohnDoe"),
        GateDecision::Reject => panic!("an identity must be admitted"),
    }
}

#[test]
fn decision_rejects_without_identity() {
    assert!(matches!(auth_decision(None), GateDecision::Reject));
}
