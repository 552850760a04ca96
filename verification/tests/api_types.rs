use cerebrate::api::types::{AgentInfo, ApiResponse, ProviderInfo, StatsSummary};
use cerebrate::api::ApiResponse as PlainResponse;
use cerebrate::connections::{vm_connect, VmConnection};
use cerebrate::models::{ProviderType, State};
use cerebrate::table::Table;

#[test]
fn test_api_response_success() {
    let resp: ApiResponse<String> = ApiResponse::success("test data".to_string());
    assert!(resp.success);
    assert_eq!(resp.data, Some("test data".to_string()));
    assert!(resp.error.is_none());
}

#[test]
fn test_api_response_error() {
    let resp: ApiResponse<String> = ApiResponse::error("Something went wrong");
    assert!(!resp.success);
    assert!(resp.data.is_none());
    assert_eq!(resp.error, Some("Something went wrong".to_string()));
}

#[test]
fn plain_api_response_ok_and_err() {
    let ok: PlainResponse<i32> = PlainResponse::ok(42);
    assert!(ok.success);
    assert_eq!(ok.data, Some(42));
    assert!(ok.error.is_none());
    let err: PlainResponse<i32> = PlainResponse::err("nope");
    assert!(!err.success);
    assert!(err.data.is_none());
    assert_eq!(err.error, Some("nope".to_string()));
}

#[test]
fn health_reports_ok() {
    let h = cerebrate::api::health("1.2.3");
    assert_eq!(h.status, "ok");
    assert_eq!(h.version, "1.2.3");
    assert_eq!(h.name, "cerebrate");
}

fn two_agents() -> State {
    let mut s = State::new();
    s.defaults.container_subnet_base = "10.0".to_string();
    s.create_agent("a1".to_string(), None, "tok1".to_string(), "t0".to_string()).unwrap();
    s.create_agent("a2".to_string(), Some("u2".to_string()), "tok2".to_string(), "t0".to_string()).unwrap();
    s.set_agent_enabled("a2", false, "t1".to_string()).unwrap();
    s
}

#[test]
fn agent_infos_follow_the_table_and_connections() {
    let s = two_agents();
    let mut conns: Table<VmConnection> = Table::new();
    vm_connect(&mut conns, &s, "a1", "tok1", "t2".to_string()).unwrap();
    let infos = AgentInfo::list(&s, &conns);
    assert_eq!(infos.len(), 2);
    assert_eq!(infos[0].name, "a1");
    assert!(infos[0].online);
    assert!(infos[0].enabled);
    assert_eq!(infos[0].container_ip, "10.0.1.2");
    assert_eq!(infos[0].host_ip, "10.0.1.1");
    assert_eq!(infos[0].forgejo_username, None);
    assert_eq!(infos[1].name, "a2");
    assert!(!infos[1].online);
    assert!(!infos[1].enabled);
    assert_eq!(infos[1].forgejo_username, Some("u2".to_string()));
}

#[test]
fn stats_count_agents_connections_and_enabled() {
    let s = two_agents();
    let mut conns: Table<VmConnection> = Table::new();
    vm_connect(&mut conns, &s, "a2", "tok2", "t2".to_string()).unwrap();
    let st = StatsSummary::of(&s, &conns);
    assert_eq!(st.total_agents, 2);
    assert_eq!(st.online_agents, 1);
    assert_eq!(st.enabled_agents, 1);
}

#[test]
fn provider_info_names_its_type() {
    let mut s = State::new();
    s.create_provider(
        "p1".to_string(),
        "OpenAI".to_string(),
        ProviderType::Openai,
        "https://api.openai.com".to_string(),
        "sk".to_string(),
        "2024-01-01".to_string(),
    );
    let p = s.providers.get("p1").unwrap();
    let info = ProviderInfo::of("p1", p);
    assert_eq!(info.id, "p1");
    assert_eq!(info.name, "OpenAI");
    assert_eq!(info.provider_type, "openai");
    assert_eq!(info.base_url, "https://api.openai.com");
    assert!(info.enabled);
    assert_eq!(info.created_at, "2024-01-01");
}
