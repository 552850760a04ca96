use cerebrate::accounts::agent_by_forgejo_user;
use cerebrate::models::{Error, State};

fn state() -> State {
    let mut s = State::new();
    s.create_agent("a".to_string(), None, "t1".to_string(), "t0".to_string()).unwrap();
    s.create_agent("b".to_string(), Some("bee".to_string()), "t2".to_string(), "t0".to_string()).unwrap();
    s
}

#[test]
fn forgejo_accounts_are_unique() {
    let mut s = state();
    s.add_forgejo_user("u".to_string(), "pw".to_string(), "u@example.com".to_string(), "t".to_string()).unwrap();
    match s.add_forgejo_user("u".to_string(), "other".to_string(), "x@example.com".to_string(), "t2".to_string()) {
        Err(Error::Database(m)) => assert_eq!(m, "UNIQUE constraint failed: forgejo_users.username"),
        _ => panic!("expected Database"),
    }
    assert_eq!(s.forgejo_users.get("u").unwrap().password, "pw");
    s.remove_forgejo_user("u");
    s.remove_forgejo_user("u");
    assert!(s.forgejo_users.get("u").is_none());
}

#[test]
fn binding_agents_to_accounts() {
    let mut s = state();
    s.add_forgejo_user("u".to_string(), "pw".to_string(), "e".to_string(), "t".to_string()).unwrap();
    match s.bind_forgejo_user("zz", "u", "t1".to_string()) {
        Err(Error::NotFound(m)) => assert_eq!(m, "Agent not found"),
        _ => panic!("expected NotFound"),
    }
    match s.bind_forgejo_user("a", "nobody", "t1".to_string()) {
        Err(Error::NotFound(m)) => assert_eq!(m, "Forgejo user not found"),
        _ => panic!("expected NotFound"),
    }
    assert_eq!(agent_by_forgejo_user(&s, "u"), None);
    s.bind_forgejo_user("a", "u", "t1".to_string()).unwrap();
    let a = s.agents.get("a").unwrap();
    assert_eq!(a.forgejo_username, Some("u".to_string()));
    assert_eq!(a.updated_at, "t1");
    assert_eq!(a.container_ip, ".1.2");
    assert_eq!(agent_by_forgejo_user(&s, "u"), Some("a".to_string()));
    assert_eq!(agent_by_forgejo_user(&s, "bee"), Some("b".to_string()));
    s.unbind_forgejo_user("a", "t2".to_string()).unwrap();
    assert_eq!(s.agents.get("a").unwrap().forgejo_username, None);
    assert_eq!(agent_by_forgejo_user(&s, "u"), None);
    assert!(s.unbind_forgejo_user("zz", "t".to_string()).is_err());
}

#[test]
fn importing_adds_only_missing_records() {
    let mut s = state();
    let mut incoming = State::new();
    incoming.defaults.forgejo_url = "https://git.example.com".to_string();
    incoming.create_agent("a".to_string(), None, "other-token".to_string(), "t9".to_string()).unwrap();
    incoming.create_agent("b".to_string(), None, "x".to_string(), "t9".to_string()).unwrap();
    incoming.create_agent("c".to_string(), None, "t3".to_string(), "t9".to_string()).unwrap();
    incoming.add_forgejo_user("u".to_string(), "pw".to_string(), "e".to_string(), "t".to_string()).unwrap();
    s.import_config(&incoming);
    assert_eq!(s.defaults.forgejo_url, "https://git.example.com");
    assert_eq!(s.agents.len(), 3);
    assert_eq!(s.agents.get("a").unwrap().internal_token, "t1");
    assert_eq!(s.agents.get("c").unwrap().internal_token, "t3");
    assert!(s.forgejo_users.get("u").is_some());
    s.import_config(&incoming);
    assert_eq!(s.agents.len(), 3);
    assert_eq!(s.forgejo_users.len(), 1);
}
