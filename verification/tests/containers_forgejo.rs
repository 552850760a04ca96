use cerebrate::agent_manager::{container_ip, AgentManager, ContainerAction, Instance, Removal};
use cerebrate::models::{Error, ProviderType, SkillType, State};
use cerebrate::swarm::forgejo::{
    admin_user_path, check_status, org_member_path, org_members_path, org_path, org_repos_path, repo_path,
    create_org_body, create_repo_body, create_repo_fallback, create_user_body, repo_transfer_path, repos_path,
    ForgejoClient,
};

fn inst(name: &str, status: &str, label: Option<&str>) -> Instance {
    Instance {
        name: name.to_string(),
        status: status.to_string(),
        config: label.map(|v| vec![("image.os".to_string(), "nixos".to_string()), ("user.openzerg.type".to_string(), v.to_string())]),
    }
}

#[test]
fn agent_containers_carry_the_label() {
    assert!(AgentManager::is_agent_container(&inst("a", "Running", Some("agent"))));
    assert!(!AgentManager::is_agent_container(&inst("a", "Running", Some("other"))));
    assert!(!AgentManager::is_agent_container(&inst("a", "Running", None)));
}

#[test]
fn containers_follow_the_agents_enabled_flag() {
    assert_eq!(AgentManager::container_action(false, true, ""), ContainerAction::Create { start: true });
    assert_eq!(AgentManager::container_action(false, false, ""), ContainerAction::Create { start: false });
    assert_eq!(AgentManager::container_action(true, true, "Stopped"), ContainerAction::Start);
    assert_eq!(AgentManager::container_action(true, false, "Running"), ContainerAction::Stop);
    assert_eq!(AgentManager::container_action(true, true, "Running"), ContainerAction::Keep);
    assert_eq!(AgentManager::container_action(true, false, "Stopped"), ContainerAction::Keep);
}

#[test]
fn containers_of_removed_agents_are_removed() {
    let mut s = State::new();
    s.create_agent("kept".to_string(), None, "t".to_string(), "t".to_string()).unwrap();
    let instances = vec![
        inst("kept", "Running", Some("agent")),
        inst("old-running", "Running", Some("agent")),
        inst("unrelated", "Running", None),
        inst("old-stopped", "Stopped", Some("agent")),
    ];
    assert_eq!(
        AgentManager::removals(&s, &instances),
        vec![Removal::StopAndDelete("old-running".to_string()), Removal::Delete("old-stopped".to_string())]
    );
}

#[test]
fn container_address_is_the_first_inet() {
    assert_eq!(container_ip(&None), None);
    let addrs = vec![
        ("inet6".to_string(), "fe80::1".to_string()),
        ("inet".to_string(), "10.0.1.2".to_string()),
        ("inet".to_string(), "10.0.9.9".to_string()),
    ];
    assert_eq!(container_ip(&Some(addrs)), Some("10.0.1.2".to_string()));
    assert_eq!(container_ip(&Some(vec![("inet6".to_string(), "::1".to_string())])), None);
}

#[test]
fn forgejo_endpoints() {
    let c = ForgejoClient::new("https://git.example.com", "abc");
    assert_eq!(c.url("/user/repos"), "https://git.example.com/api/v1/user/repos");
    assert_eq!(c.auth_header(), "token abc");
    assert_eq!(c.token(), "abc");
    assert_eq!(org_path("o"), "/orgs/o");
    assert_eq!(org_members_path("o"), "/orgs/o/members");
    assert_eq!(org_member_path("o", "u"), "/orgs/o/members/u");
    assert_eq!(repos_path(Some("u")), "/users/u/repos");
    assert_eq!(repos_path(None), "/user/repos");
    assert_eq!(org_repos_path("o"), "/orgs/o/repos");
    assert_eq!(repo_path("u", "r"), "/repos/u/r");
    assert_eq!(repo_transfer_path("u", "r"), "/repos/u/r/transfer");
    assert_eq!(admin_user_path("u"), "/admin/users/u");
}

#[test]
fn forgejo_statuses() {
    assert!(check_status("create repo", 201, "", false).is_ok());
    assert!(check_status("delete repo", 404, "", true).is_ok());
    match check_status("delete repo", 404, "gone", false) {
        Err(Error::Config(m)) => assert_eq!(m, "Failed to delete repo: 404 Not Found - gone"),
        _ => panic!("expected Config"),
    }
    match check_status("create org", 422, "{\"message\":\"exists\"}", true) {
        Err(Error::Config(m)) => assert_eq!(m, "Failed to create org: 422 Unprocessable Entity - {\"message\":\"exists\"}"),
        _ => panic!("expected Config"),
    }
}

#[test]
fn provider_and_skill_kinds_read_any_case() {
    assert_eq!(ProviderType::from_str("OpenAI"), Some(ProviderType::Openai));
    assert_eq!(ProviderType::from_str("deepseek"), Some(ProviderType::Deepseek));
    assert_eq!(ProviderType::from_str("nope"), None);
    for t in [
        ProviderType::Openai,
        ProviderType::Azure,
        ProviderType::Anthropic,
        ProviderType::Deepseek,
        ProviderType::Moonshot,
        ProviderType::Zhipu,
        ProviderType::Custom,
    ] {
        assert_eq!(ProviderType::from_str(t.as_str()), Some(t));
        assert_eq!(ProviderType::from_str(&t.as_str().to_uppercase()), Some(t));
    }
    assert_eq!(ProviderType::Zhipu.as_str(), "zhipu");
    assert_eq!(SkillType::from_str("HostScript"), Some(SkillType::HostScript));
    assert_eq!(SkillType::from_str("agent_script"), Some(SkillType::AgentScript));
    assert_eq!(SkillType::from_str("script"), None);
    assert_eq!(SkillType::HostScript.as_str(), "host_script");
    assert_eq!(SkillType::from_str(SkillType::AgentScript.as_str()), Some(SkillType::AgentScript));
}

#[test]
fn repo_creation_falls_back_to_the_users_repositories_on_404() {
    assert_eq!(create_repo_fallback(404), Some("/user/repos".to_string()));
    assert_eq!(create_repo_fallback(201), None);
    assert_eq!(create_repo_fallback(409), None);
    assert_eq!(create_repo_fallback(500), None);
}

#[test]
fn forgejo_bodies_are_the_request_records_as_json() {
    assert_eq!(
        create_user_body("bob", "pa\"ss", "b@x.org"),
        r#"{"username":"bob","password":"pa\"ss","email":"b@x.org","must_change_password":false}"#
    );
    assert_eq!(create_org_body("team"), r#"{"username":"team","full_name":"team","description":""}"#);
    assert_eq!(create_repo_body("tools"), r#"{"name":"tools","description":"","private":true,"auto_init":true}"#);
    let v: serde_json::Value = serde_json::from_str(&create_user_body("a\nb", "p", "e")).unwrap();
    assert_eq!(v["username"], "a\nb");
}
