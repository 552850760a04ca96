use std::sync::Arc;
use cerebrate::auth::{authenticate, authorize_request, extract_token_from_header, AuthState, AuthenticatedCaller};
use cerebrate::models::{CallerIdentity, State};
use cerebrate::state::StateManager;
use cerebrate::swarm::auth::{parse_basic, AuthConfig};

#[test]
fn test_auth_state_creation() {
    let state_manager = Arc::new(StateManager::new("/tmp/test"));
    let auth_state = AuthState { state_manager };
    assert!(Arc::strong_count(&auth_state.state_manager) >= 1);
}

#[test]
fn test_authenticated_caller_type() {
    let caller = AuthenticatedCaller(CallerIdentity::Admin);
    match caller.0 {
        CallerIdentity::Admin => (),
        CallerIdentity::Agent(_) => panic!("Expected Admin"),
    }
}

#[test]
fn test_authenticated_caller_agent() {
    let caller = AuthenticatedCaller(CallerIdentity::Agent("test-agent".to_string()));
    match caller.0 {
        CallerIdentity::Agent(name) => assert_eq!(name, "test-agent"),
        CallerIdentity::Admin => panic!("Expected Agent"),
    }
}

fn state_with_tokens() -> State {
    let mut s = State::new();
    s.admin_token = Some("admin-secret".to_string());
    s.create_agent("a1".to_string(), None, "tok1".to_string(), "t".to_string()).unwrap();
    s.create_agent("a2".to_string(), None, "tok2".to_string(), "t".to_string()).unwrap();
    s
}

#[test]
fn bearer_tokens_are_taken_after_the_prefix() {
    assert_eq!(extract_token_from_header(Some("Bearer abc")), Some("abc".to_string()));
    assert_eq!(extract_token_from_header(Some("Bearer ")), Some("".to_string()));
    assert_eq!(extract_token_from_header(Some("Basic abc")), None);
    assert_eq!(extract_token_from_header(Some("bearer abc")), None);
    assert_eq!(extract_token_from_header(None), None);
}

#[test]
fn tokens_identify_admin_first_then_agents() {
    let s = state_with_tokens();
    assert!(matches!(authenticate(&s, "admin-secret"), Some(CallerIdentity::Admin)));
    match authenticate(&s, "tok2") {
        Some(CallerIdentity::Agent(n)) => assert_eq!(n, "a2"),
        _ => panic!("expected agent a2"),
    }
    assert!(authenticate(&s, "nope").is_none());
}

#[test]
fn requests_without_a_known_bearer_token_get_401() {
    let s = state_with_tokens();
    assert!(matches!(authorize_request(&s, Some("Bearer admin-secret")), Ok(CallerIdentity::Admin)));
    assert_eq!(authorize_request(&s, None).err(), Some(401));
    assert_eq!(authorize_request(&s, Some("Token tok1")).err(), Some(401));
    assert_eq!(authorize_request(&s, Some("Bearer wrong")).err(), Some(401));
}

#[test]
fn basic_credentials_are_decoded() {
    // "user:pa:ss" in base64
    let (u, p) = parse_basic("Basic dXNlcjpwYTpzcw==").unwrap();
    assert_eq!(u, "user");
    assert_eq!(p, "pa:ss");
    assert!(parse_basic("Basic !!!").is_none());
    // "nocolon"
    assert!(parse_basic("Basic bm9jb2xvbg==").is_none());
    assert!(parse_basic("Bearer dXNlcjpwYXNz").is_none());
}

#[test]
fn basic_auth_allows_only_the_configured_user() {
    let cfg = AuthConfig { username: "user".to_string(), password: "pass".to_string() };
    assert!(cfg.allows(Some("Basic dXNlcjpwYXNz")));
    // "user:wrong"
    assert!(!cfg.allows(Some("Basic dXNlcjp3cm9uZw==")));
    assert!(!cfg.allows(None));
}
