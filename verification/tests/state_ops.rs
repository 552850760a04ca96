use cerebrate::models::{Error, ProviderType, SkillType, State};

fn base_state() -> State {
    let mut s = State::new();
    s.defaults.container_subnet_base = "10.0".to_string();
    s
}

#[test]
fn agents_get_the_next_subnet() {
    let mut s = base_state();
    s.create_agent("a".to_string(), None, "t1".to_string(), "now".to_string()).unwrap();
    s.create_agent("b".to_string(), Some("bee".to_string()), "t2".to_string(), "now".to_string()).unwrap();
    let a = s.agents.get("a").unwrap();
    let b = s.agents.get("b").unwrap();
    assert_eq!(a.container_ip, "10.0.1.2");
    assert_eq!(a.host_ip, "10.0.1.1");
    assert_eq!(b.container_ip, "10.0.2.2");
    assert_eq!(b.host_ip, "10.0.2.1");
    assert_ne!(a.container_ip, b.container_ip);
    assert!(a.enabled);
    assert_eq!(b.forgejo_username, Some("bee".to_string()));
    assert_eq!(a.model_id, None);
}

#[test]
fn creating_a_taken_name_fails_and_changes_nothing() {
    let mut s = base_state();
    s.create_agent("a".to_string(), None, "t1".to_string(), "now".to_string()).unwrap();
    match s.create_agent("a".to_string(), None, "t9".to_string(), "later".to_string()) {
        Err(Error::AgentAlreadyExists(n)) => assert_eq!(n, "a"),
        _ => panic!("expected AgentAlreadyExists"),
    }
    assert_eq!(s.agents.len(), 1);
    assert_eq!(s.agents.get("a").unwrap().internal_token, "t1");
}

#[test]
fn delete_undoes_create() {
    let mut s = base_state();
    s.create_agent("a".to_string(), None, "t1".to_string(), "now".to_string()).unwrap();
    s.create_agent("b".to_string(), None, "t2".to_string(), "now".to_string()).unwrap();
    s.delete_agent("b").unwrap();
    assert_eq!(s.agents.len(), 1);
    assert!(s.agents.get("b").is_none());
    match s.delete_agent("b") {
        Err(Error::AgentNotFound(n)) => assert_eq!(n, "b"),
        _ => panic!("expected AgentNotFound"),
    }
}

#[test]
fn enabling_stamps_the_agent() {
    let mut s = base_state();
    s.create_agent("a".to_string(), None, "t1".to_string(), "t0".to_string()).unwrap();
    s.set_agent_enabled("a", false, "t1".to_string()).unwrap();
    let a = s.agents.get("a").unwrap();
    assert!(!a.enabled);
    assert_eq!(a.updated_at, "t1");
    assert_eq!(a.created_at, "t0");
}

#[test]
fn deleting_a_model_unbinds_its_agents() {
    let mut s = base_state();
    s.create_provider("p".to_string(), "P".to_string(), ProviderType::Custom, "u".to_string(), "k".to_string(), "t".to_string());
    s.create_model("m1".to_string(), "M1".to_string(), "p".to_string(), "gpt".to_string(), "t".to_string()).unwrap();
    s.create_model("m2".to_string(), "M2".to_string(), "p".to_string(), "gpt".to_string(), "t".to_string()).unwrap();
    s.create_agent("a".to_string(), None, "t1".to_string(), "t".to_string()).unwrap();
    s.create_agent("b".to_string(), None, "t2".to_string(), "t".to_string()).unwrap();
    s.bind_model("a", "m1".to_string(), "t".to_string()).unwrap();
    s.bind_model("b", "m2".to_string(), "t".to_string()).unwrap();
    s.delete_model("m1").unwrap();
    assert_eq!(s.agents.get("a").unwrap().model_id, None);
    assert_eq!(s.agents.get("b").unwrap().model_id, Some("m2".to_string()));
    match s.delete_model("m1") {
        Err(Error::NotFound(m)) => assert_eq!(m, "Model m1 not found"),
        _ => panic!("expected NotFound"),
    }
}

#[test]
fn binding_an_unknown_model_fails() {
    let mut s = base_state();
    s.create_agent("a".to_string(), None, "t1".to_string(), "t".to_string()).unwrap();
    assert!(s.bind_model("a", "nope".to_string(), "t".to_string()).is_err());
    assert_eq!(s.agents.get("a").unwrap().model_id, None);
}

#[test]
fn skill_grants_and_revokes() {
    let mut s = base_state();
    s.create_agent("owner".to_string(), None, "t1".to_string(), "t".to_string()).unwrap();
    s.create_agent("other".to_string(), None, "t2".to_string(), "t".to_string()).unwrap();
    s.create_skill("sk".to_string(), "Skill".to_string(), SkillType::HostScript, "owner".to_string(), "run.sh".to_string(), None, None, "t".to_string()).unwrap();
    let skill = s.skills.get("sk").unwrap();
    assert!(!cerebrate::access::check_skill_authorization(skill, "other"));
    assert!(cerebrate::access::check_skill_authorization(skill, "owner"));
    s.authorize_skill("sk", "other", "t2".to_string()).unwrap();
    s.authorize_skill("sk", "other", "t3".to_string()).unwrap();
    let skill = s.skills.get("sk").unwrap();
    assert!(cerebrate::access::check_skill_authorization(skill, "other"));
    assert_eq!(skill.updated_at, "t2");
    s.revoke_skill("sk", "other", "t4".to_string()).unwrap();
    assert!(!cerebrate::access::check_skill_authorization(s.skills.get("sk").unwrap(), "other"));
    match s.authorize_skill("sk", "ghost", "t".to_string()) {
        Err(Error::AgentNotFound(n)) => assert_eq!(n, "ghost"),
        _ => panic!("expected AgentNotFound"),
    }
}

#[test]
fn models_put_from_the_command_line_need_no_known_provider() {
    let mut s = base_state();
    assert!(s.create_model("m1".to_string(), "M".to_string(), "nope".to_string(), "x".to_string(), "t".to_string()).is_err());
    assert!(s.models.get("m1").is_none());
    s.put_model("m1".to_string(), "M".to_string(), "nope".to_string(), "x".to_string(), "t".to_string());
    let m = s.models.get("m1").unwrap();
    assert!(m.enabled);
    assert_eq!(m.provider_id, "nope");
}
