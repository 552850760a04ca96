use cerebrate::models::{Error, State};
use cerebrate::swarm::agent_manager::AgentManager;

fn container_text(name: &str, enabled: bool, host_ip: &str, container_ip: &str, port: u16, token: &str) -> String {
    format!(
        r#"  containers.{name} = {{
    autoStart = {auto_start};
    ephemeral = false;
    privateNetwork = true;
    hostAddress = "{host_ip}";
    localAddress = "{container_ip}";
    
    bindMounts = {{
      "/workspace" = {{
        hostPath = "/var/lib/agents/{name}";
        isReadOnly = false;
      }};
    }};
    
    config = {{ config, pkgs, lib, ... }}: {{
      imports = [
        openzerg.nixosModules.default
      ];
      
      services.openzerg = {{
        enable = true;
        package = openzerg.packages.${{pkgs.stdenv.hostPlatform.system}}.openzerg;
        agentName = "{name}";
        managerUrl = "ws://{host_ip}:{ws_port}";
        internalToken = "{token}";
        workspace = "/workspace";
      }};
      
      networking.firewall.allowedTCPPorts = [ 8080 ];
      
      system.stateVersion = "25.11";
    }};
  }};
"#,
        name = name,
        auto_start = if enabled { "true" } else { "false" },
        host_ip = host_ip,
        container_ip = container_ip,
        ws_port = port,
        token = token,
    )
}

fn body(text: &str) -> &str {
    &text[text.find("{ config").expect("module header")..]
}

#[test]
fn containers_module_declares_each_agent() {
    let mut s = State::new();
    s.defaults.port = 17531;
    s.defaults.container_subnet_base = "10.200".to_string();
    s.create_agent("alpha".to_string(), None, "tok-a".to_string(), "t".to_string()).unwrap();
    s.create_agent("beta".to_string(), None, "tok-b".to_string(), "t".to_string()).unwrap();
    s.set_agent_enabled("beta", false, "t".to_string()).unwrap();
    let m = AgentManager::new("/sys");
    let out = m.generate_containers_nix(&s);
    let expected = format!(
        "{{ config, pkgs, lib, openzerg, ... }}:\n\n{{\n{}{}}}\n",
        container_text("alpha", true, "10.200.1.1", "10.200.1.2", 17531, "tok-a"),
        container_text("beta", false, "10.200.2.1", "10.200.2.2", 17531, "tok-b"),
    );
    assert_eq!(body(&out), expected);
    assert!(out.contains("# DO NOT EDIT MANUALLY\n"));
    let empty = m.generate_containers_nix(&State::new());
    assert!(empty.ends_with("{ config, pkgs, lib, openzerg, ... }:\n\n{\n  # No containers\n}\n"));
}

#[test]
fn filesystem_module_mounts_each_subvolume() {
    let mut s = State::new();
    s.create_agent("alpha".to_string(), None, "tok-a".to_string(), "t".to_string()).unwrap();
    let m = AgentManager::new("/sys");
    let out = m.generate_filesystem_nix(&s.agents, "/dev/sda2");
    let block = format!(
        r#"  fileSystems."/var/lib/agents/{name}" = {{
    device = "{device}";
    fsType = "btrfs";
    options = [ "subvol=@agents/{name}" "compress=zstd" "noatime" ];
  }};

"#,
        name = "alpha",
        device = "/dev/sda2",
    );
    assert_eq!(body(&out), format!("{{ config, ... }}:\n\n{{\n{}}}\n", block));
    let empty = m.generate_filesystem_nix(&State::new().agents, "/dev/sda2");
    assert!(empty.ends_with("{ config, ... }:\n\n{\n  # No agent filesystems\n}\n"));
}

#[test]
fn rebuild_outcome_maps_the_exit_status() {
    assert!(AgentManager::rebuild_outcome(true).is_ok());
    match AgentManager::rebuild_outcome(false) {
        Err(Error::Config(m)) => assert_eq!(m, "nixos-rebuild failed"),
        _ => panic!("expected a configuration error"),
    }
}

#[test]
fn filesystem_module_has_a_block_for_every_agent() {
    let mut s = State::new();
    for n in ["alpha", "beta", "gamma"] {
        s.create_agent(n.to_string(), None, format!("tok-{}", n), "t".to_string()).unwrap();
    }
    let m = AgentManager::new("/sys");
    let out = m.generate_filesystem_nix(&s.agents, "/dev/vdb");
    for n in ["alpha", "beta", "gamma"] {
        assert!(out.contains(&format!("fileSystems.\"/var/lib/agents/{}\"", n)));
        assert!(out.contains(&format!("subvol=@agents/{}", n)));
    }
    assert_eq!(out.matches("fsType = \"btrfs\";").count(), 3);
    assert!(!m.generate_filesystem_nix(&State::new().agents, "/dev/vdb").contains("fileSystems."));
}
