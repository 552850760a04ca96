use cerebrate::connections::{
    check_forward, online, online_count, vm_connect, vm_disconnect, vm_heartbeat, VmConnection, VmFrame, VmReaction,
    VmSession,
};
use cerebrate::models::{Error, ProviderType, State};
use cerebrate::swarm::proxy::{generate_api_key, hash_key, route_completion, to_hex, ProxyError, Upstream};
use cerebrate::table::Table;

#[test]
fn keys_are_stored_as_sha256_hex() {
    assert_eq!(hash_key("abc"), "ba7816bf8f01cfea414140de5dae2223b00361a396177a9cb410ff61f20015ad");
    assert_eq!(hash_key(""), "e3b0c44298fc1c149afbf4c8996fb92427ae41e4649b934ca495991b7852b855");
    assert_eq!(to_hex(&vec![0u8, 15, 16, 255]), "000f10ff");
}

#[test]
fn generated_keys_have_the_prefix_and_differ() {
    let a = generate_api_key("6f1c2d3e-4a5b-4c6d-8e7f-901a2b3c4d5e");
    let b = generate_api_key("00000000-0000-4000-8000-000000000000");
    assert_eq!(a, "zsp-6f1c2d3e-4a5b-4c6d-8e7f-901a2b3c4d5e");
    assert_eq!(a.len(), 4 + 36);
    assert_ne!(a, b);
}

fn proxied_state() -> State {
    let mut s = State::new();
    s.create_provider("p1".to_string(), "Main".to_string(), ProviderType::Openai, "https://api.example.com//".to_string(), "sk-up".to_string(), "t".to_string());
    s.create_provider("p2".to_string(), "Off".to_string(), ProviderType::Custom, "https://off.example.com".to_string(), "sk-off".to_string(), "t".to_string());
    s.set_provider_enabled("p2", false, "t".to_string()).unwrap();
    s.create_api_key("k1".to_string(), "main key".to_string(), hash_key("secret-1"), "p1".to_string(), "t".to_string());
    s.create_api_key("k2".to_string(), "off key".to_string(), hash_key("secret-2"), "p2".to_string(), "t".to_string());
    s.create_api_key("k3".to_string(), "orphan".to_string(), hash_key("secret-3"), "gone".to_string(), "t".to_string());
    s
}

#[test]
fn completions_are_routed_to_the_keys_provider() {
    let s = proxied_state();
    let up = match route_completion(&s, Some("Bearer secret-1")) {
        Ok(u) => u,
        Err(e) => panic!("refused: {:?}", e),
    };
    assert_eq!(up.url, "https://api.example.com/v1/chat/completions");
    assert_eq!(up.authorization, "Bearer sk-up");
    assert_eq!(up.provider_id, "p1");
}

fn refused(r: Result<Upstream, ProxyError>) -> ProxyError {
    match r {
        Err(e) => e,
        Ok(u) => panic!("forwarded to {}", u.url),
    }
}

#[test]
fn issued_keys_reach_their_provider() {
    let mut s = proxied_state();
    match s.issue_api_key("k5".to_string(), "agent key".to_string(), "nope".to_string(), "u-1", "t".to_string()) {
        Err(Error::NotFound(m)) => assert_eq!(m, "Provider not found: nope"),
        _ => panic!("expected NotFound"),
    }
    let raw = s.issue_api_key("k5".to_string(), "agent key".to_string(), "p1".to_string(), "u-1", "t".to_string()).unwrap();
    assert_eq!(raw, "zsp-u-1");
    assert_eq!(s.api_keys.get("k5").unwrap().key_hash, hash_key(&raw));
    let up = match route_completion(&s, Some(&format!("Bearer {}", raw))) {
        Ok(u) => u,
        Err(e) => panic!("refused: {:?}", e),
    };
    assert_eq!(up.provider_id, "p1");
}

#[test]
fn a_deleted_key_is_refused() {
    let mut s = proxied_state();
    assert!(route_completion(&s, Some("Bearer secret-1")).is_ok());
    s.delete_api_key("k1").unwrap();
    let e = refused(route_completion(&s, Some("Bearer secret-1")));
    assert!(matches!(e, ProxyError::InvalidApiKey));
    s.create_api_key("k9".to_string(), "again".to_string(), hash_key("secret-1"), "p1".to_string(), "t".to_string());
    assert!(route_completion(&s, Some("Bearer secret-1")).is_ok());
}

#[test]
fn refused_completions_and_their_answers() {
    let s = proxied_state();
    let e = refused(route_completion(&s, None));
    assert!(matches!(e, ProxyError::MissingAuth));
    assert_eq!((e.status_code(), e.message()), (401, "Missing authorization header".to_string()));
    let e = refused(route_completion(&s, Some("Basic abc")));
    assert!(matches!(e, ProxyError::InvalidAuthFormat));
    assert_eq!((e.status_code(), e.message()), (401, "Invalid authorization format".to_string()));
    let e = refused(route_completion(&s, Some("Bearer nope")));
    assert!(matches!(e, ProxyError::InvalidApiKey));
    assert_eq!((e.status_code(), e.message()), (401, "Invalid API key".to_string()));
    let e = refused(route_completion(&s, Some("Bearer secret-2")));
    assert_eq!((e.status_code(), e.message()), (403, "Provider Off is disabled".to_string()));
    let e = refused(route_completion(&s, Some("Bearer secret-3")));
    assert_eq!((e.status_code(), e.message()), (502, "Provider not found: gone".to_string()));
}

fn agent_state() -> State {
    let mut s = State::new();
    s.create_agent("a".to_string(), None, "tok-a".to_string(), "t".to_string()).unwrap();
    s.create_agent("b".to_string(), None, "tok-b".to_string(), "t".to_string()).unwrap();
    s
}

#[test]
fn agents_connect_with_their_token() {
    let s = agent_state();
    let mut conns: Table<VmConnection> = Table::new();
    assert!(matches!(vm_connect(&mut conns, &s, "a", "wrong", "t1".to_string()), Err(Error::InvalidToken)));
    assert!(matches!(vm_connect(&mut conns, &s, "zz", "tok-a", "t1".to_string()), Err(Error::AgentNotFound(_))));
    assert_eq!(conns.len(), 0);
    assert_eq!(vm_connect(&mut conns, &s, "a", "tok-a", "t1".to_string()).unwrap(), "a");
    assert!(online(&conns, "a"));
    assert!(!online(&conns, "b"));
    assert_eq!(online_count(&conns), 1);
    vm_heartbeat(&mut conns, "a", "t2".to_string());
    assert_eq!(conns.get("a").unwrap().last_heartbeat, "t2");
    vm_heartbeat(&mut conns, "b", "t2".to_string());
    assert!(conns.get("b").is_none());
    assert!(check_forward(&conns, "a").is_ok());
    vm_disconnect(&mut conns, "a");
    assert!(!online(&conns, "a"));
    match check_forward(&conns, "a") {
        Err(Error::ConnectionLost(m)) => assert_eq!(m, "Agent a is not connected"),
        _ => panic!("expected ConnectionLost"),
    }
    match check_forward(&conns, "b") {
        Err(Error::NotFound(m)) => assert_eq!(m, "Agent b not connected"),
        _ => panic!("expected NotFound"),
    }
}

#[test]
fn a_session_connects_then_goes_offline_at_its_end() {
    let s = agent_state();
    let mut conns: Table<VmConnection> = Table::new();
    vm_connect(&mut conns, &s, "b", "tok-b", "t0".to_string()).unwrap();
    let mut session = VmSession::new();
    let r = session.on_frame(&mut conns, &s, VmFrame::Ping, "t1".to_string());
    assert!(matches!(r, VmReaction::Pong));
    let r = session.on_frame(
        &mut conns,
        &s,
        VmFrame::Connect { agent_name: "a".to_string(), internal_token: "tok-a".to_string() },
        "t1".to_string(),
    );
    assert!(matches!(r, VmReaction::Connected(ref n) if n == "a"));
    assert!(online(&conns, "a"));
    let r = session.on_frame(&mut conns, &s, VmFrame::StatusReport { agent_name: "a".to_string() }, "t2".to_string());
    assert!(matches!(r, VmReaction::Status(ref n) if n == "a"));
    let r = session.on_frame(&mut conns, &s, VmFrame::Unreadable, "t2".to_string());
    assert!(matches!(r, VmReaction::Continue));
    let r = session.on_frame(&mut conns, &s, VmFrame::Close, "t3".to_string());
    assert!(matches!(r, VmReaction::Stop));
    assert_eq!(session.finish(&mut conns), Some("a".to_string()));
    assert!(!online(&conns, "a"));
    assert!(conns.get("a").is_none());
    assert!(online(&conns, "b"));
    assert_eq!(conns.len(), 1);
}

#[test]
fn a_refused_connect_closes_the_socket() {
    let s = agent_state();
    let mut conns: Table<VmConnection> = Table::new();
    let mut session = VmSession::new();
    let r = session.on_frame(
        &mut conns,
        &s,
        VmFrame::Connect { agent_name: "a".to_string(), internal_token: "bad".to_string() },
        "t1".to_string(),
    );
    assert!(matches!(r, VmReaction::CloseAndStop));
    assert_eq!(session.finish(&mut conns), None);
    assert_eq!(conns.len(), 0);
}
