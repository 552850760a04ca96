use cerebrate::api::agent::{create, get, list, CreateAgentRequest};
use cerebrate::api::llm::{create_model, create_provider, list_models, list_providers, CreateModelRequest, CreateProviderRequest};
use cerebrate::api::tool;
use cerebrate::connections::{vm_connect, VmConnection};
use cerebrate::models::{Error, State, ToolMetadata};
use cerebrate::table::Table;

fn request(name: &str, user: Option<&str>) -> CreateAgentRequest {
    CreateAgentRequest { name: name.to_string(), forgejo_username: user.map(|u| u.to_string()) }
}

#[test]
fn api_agents_get_the_api_subnet() {
    let mut s = State::new();
    let a = match create(&mut s, request("a", None), "tok-a".to_string(), "t0".to_string()) {
        Ok(a) => a,
        Err(m) => panic!("{}", m),
    };
    assert_eq!(a.container_ip, "192.168.200.2.2");
    assert_eq!(a.host_ip, "192.168.200.1.1");
    assert!(a.enabled && !a.online);
    assert_eq!(a.forgejo_username, None);
    let b = match create(&mut s, request("b", Some("bee")), "tok-b".to_string(), "t0".to_string()) {
        Ok(b) => b,
        Err(m) => panic!("{}", m),
    };
    assert_eq!(b.container_ip, "192.168.200.3.2");
    assert_eq!(b.forgejo_username, Some("bee".to_string()));
    match create(&mut s, request("a", None), "x".to_string(), "t1".to_string()) {
        Err(m) => assert_eq!(m, "Agent a already exists"),
        Ok(_) => panic!("a taken name was accepted"),
    }
    assert_eq!(s.agents.len(), 2);
    assert_eq!(s.agents.get("a").unwrap().internal_token, "tok-a");
}

#[test]
fn api_agent_views_follow_connections() {
    let mut s = State::new();
    create(&mut s, request("a", None), "tok-a".to_string(), "t0".to_string()).ok();
    create(&mut s, request("b", None), "tok-b".to_string(), "t0".to_string()).ok();
    let mut conns: Table<VmConnection> = Table::new();
    vm_connect(&mut conns, &s, "b", "tok-b", "t1".to_string()).unwrap();
    let all = list(&s, &conns);
    assert_eq!(all.len(), 2);
    assert_eq!(all[0].name, "a");
    assert!(!all[0].online);
    assert!(all[1].online);
    assert!(all[1].model_name.is_none());
    match get(&s, &conns, "b") {
        Ok(b) => assert!(b.online),
        Err(m) => panic!("{}", m),
    }
    match get(&s, &conns, "zz") {
        Err(m) => assert_eq!(m, "Agent zz not found"),
        Ok(_) => panic!("an unknown agent was found"),
    }
}

#[test]
fn api_providers_and_models() {
    let mut s = State::new();
    let bad = CreateProviderRequest {
        name: "X".to_string(),
        provider_type: "nope".to_string(),
        base_url: "u".to_string(),
        api_key: "k".to_string(),
    };
    match create_provider(&mut s, bad, "p0".to_string(), "t".to_string()) {
        Err(m) => assert_eq!(m, "Invalid provider type: nope"),
        Ok(_) => panic!("an unknown provider type was accepted"),
    }
    assert_eq!(s.providers.len(), 0);
    let good = CreateProviderRequest {
        name: "Main".to_string(),
        provider_type: "Anthropic".to_string(),
        base_url: "https://a.example.com".to_string(),
        api_key: "k".to_string(),
    };
    let p = match create_provider(&mut s, good, "p1".to_string(), "t0".to_string()) {
        Ok(p) => p,
        Err(m) => panic!("{}", m),
    };
    assert_eq!(p.id, "p1");
    assert_eq!(p.provider_type, "anthropic");
    assert!(p.enabled);
    assert_eq!(p.created_at, "t0");
    let listed = list_providers(&s);
    assert_eq!(listed.len(), 1);
    assert_eq!(listed[0].name, "Main");
    let orphan = CreateModelRequest { name: "M".to_string(), provider_id: "gone".to_string(), model_name: "m".to_string() };
    match create_model(&mut s, orphan, "m0".to_string(), "t".to_string()) {
        Err(m) => assert_eq!(m, "Provider gone not found"),
        Ok(_) => panic!("a model of an unknown provider was accepted"),
    }
    let req = CreateModelRequest { name: "M".to_string(), provider_id: "p1".to_string(), model_name: "sonnet-large".to_string() };
    let m = match create_model(&mut s, req, "m1".to_string(), "t1".to_string()) {
        Ok(m) => m,
        Err(e) => panic!("{}", e),
    };
    assert_eq!(m.provider_name, "Main");
    assert_eq!(m.model_name, "sonnet-large");
    s.delete_provider("p1").unwrap();
    let models = list_models(&s);
    assert_eq!(models.len(), 1);
    assert_eq!(models[0].provider_name, "");
}

#[test]
fn api_tools_and_sharing() {
    let mut s = State::new();
    s.create_agent("author".to_string(), None, "t".to_string(), "t".to_string()).unwrap();
    let meta = ToolMetadata {
        name: "T".to_string(),
        version: "1".to_string(),
        description: "d".to_string(),
        entrypoint: "./run".to_string(),
        input_schema: Some("{\"type\":\"object\"}".to_string()),
        output_schema: None,
    };
    s.register_tool("tl".to_string(), "org/tl".to_string(), "c0ffee00".to_string(), meta, "author".to_string(), "t".to_string());
    match tool::get(&s, "nope") {
        Err(m) => assert_eq!(m, "Tool nope not found"),
        Ok(_) => panic!("an unknown tool was found"),
    }
    let t = match tool::get(&s, "tl") {
        Ok(t) => t,
        Err(m) => panic!("{}", m),
    };
    assert_eq!(t.input_schema, Some("{\"type\":\"object\"}".to_string()));
    assert_eq!(tool::list(&s).len(), 1);
    s.share_tool("tl", "not-an-agent", "t2".to_string()).unwrap();
    assert!(s.tools.get("tl").unwrap().allowed_agents.contains(&"not-an-agent".to_string()));
    assert!(matches!(s.authorize_tool("tl", "ghost", "t3".to_string()), Err(Error::AgentNotFound(_))));
    assert!(matches!(s.share_tool("zz", "author", "t3".to_string()), Err(Error::NotFound(_))));
}
