//! The NixOS side of the agents: the system flake directory, the Nix modules
//! that declare one container and one btrfs file system per agent, and the
//! commands that apply them.

use vstd::prelude::*;
use crate::btrfs::agent_subvol;
use crate::models::{Agent, Error, State};
use crate::paths::{join_path, path_join};
use crate::table::Table;
use crate::text::{concat2, decimal, push_decimal, push_str, string_of};

verus! {

/// The system flake directory of the host and the Nix modules generated in it.
pub struct AgentManager {
    pub system_dir: String,
    pub generated_dir: String,
    pub template_dir: Option<String>,
}

/// The Nix module for a state without agents.
pub open spec fn empty_containers_nix() -> Seq<char> {
    "# Auto-generated by Zerg Swarm\n# No containers configured\n\n{ config, pkgs, lib, openzerg, ... }:\n\n{\n  # No containers\n}\n"@
}

/// The start of the Nix module that declares the agents' containers.
pub open spec fn containers_nix_head() -> Seq<char> {
    "# Auto-generated by Zerg Swarm\n# DO NOT EDIT MANUALLY\n\n{ config, pkgs, lib, openzerg, ... }:\n\n{\n"@
}

/// The Nix file-system module for a state without agents.
pub open spec fn empty_filesystem_nix() -> Seq<char> {
    "# Auto-generated by Zerg Swarm\n# No agent filesystems\n\n{ config, ... }:\n\n{\n  # No agent filesystems\n}\n"@
}

/// The start of the Nix module that declares the agents' file systems.
pub open spec fn filesystem_nix_head() -> Seq<char> {
    "# Auto-generated by Zerg Swarm\n# DO NOT EDIT MANUALLY\n\n{ config, ... }:\n\n{\n"@
}

/// `true` or `false` as Nix writes it.
pub open spec fn nix_bool(b: bool) -> Seq<char> {
    if b {
        "true"@
    } else {
        "false"@
    }
}

/// The declaration of the container of agent `name`: started at boot when the
/// agent is enabled, on its own network with the agent's host and container
/// addresses, its workspace bound from `/var/lib/agents/<name>`, and the agent
/// service reaching the manager at `ws://<host address>:<port>` with the
/// agent's token.
pub open spec fn container_block(name: Seq<char>, a: Agent, port: u16) -> Seq<char> {
    "  containers."@ + name + " = {\n    autoStart = "@ + nix_bool(a.enabled)
        + ";\n    ephemeral = false;\n    privateNetwork = true;\n    hostAddress = \""@ + a.host_ip@
        + "\";\n    localAddress = \""@ + a.container_ip@
        + "\";\n    \n    bindMounts = {\n      \"/workspace\" = {\n        hostPath = \"/var/lib/agents/"@ + name
        + "\";\n        isReadOnly = false;\n      };\n    };\n    \n    config = { config, pkgs, lib, ... }: {\n      imports = [\n        openzerg.nixosModules.default\n      ];\n      \n      services.openzerg = {\n        enable = true;\n        package = openzerg.packages.${pkgs.stdenv.hostPlatform.system}.openzerg;\n        agentName = \""@
        + name + "\";\n        managerUrl = \"ws://"@ + a.host_ip@ + ":"@ + decimal(port as nat)
        + "\";\n        internalToken = \""@ + a.internal_token@
        + "\";\n        workspace = \"/workspace\";\n      };\n      \n      networking.firewall.allowedTCPPorts = [ 8080 ];\n      \n      system.stateVersion = \"25.11\";\n    };\n  };\n"@
}

/// The declaration of the file system of agent `name`: the agent's subvolume
/// of `device`, mounted at `/var/lib/agents/<name>`.
pub open spec fn filesystem_block(name: Seq<char>, device: Seq<char>) -> Seq<char> {
    "  fileSystems.\"/var/lib/agents/"@ + name + "\" = {\n    device = \""@ + device
        + "\";\n    fsType = \"btrfs\";\n    options = [ \"subvol=@agents/"@ + name
        + "\" \"compress=zstd\" \"noatime\" ];\n  };\n\n"@
}

/// The container declarations of the first `n` agents, in order.
pub open spec fn container_blocks(es: Seq<(Seq<char>, Agent)>, port: u16, n: int) -> Seq<char>
    decreases n,
{
    if n <= 0 {
        Seq::empty()
    } else {
        container_blocks(es, port, n - 1) + container_block(es[n - 1].0, es[n - 1].1, port)
    }
}

/// The file-system declarations of the first `n` agents, in order.
pub open spec fn filesystem_blocks(es: Seq<(Seq<char>, Agent)>, device: Seq<char>, n: int) -> Seq<char>
    decreases n,
{
    if n <= 0 {
        Seq::empty()
    } else {
        filesystem_blocks(es, device, n - 1) + filesystem_block(es[n - 1].0, device)
    }
}

/// The Nix module declaring the containers of all agents of `state`, in the
/// order of the agents table.
pub open spec fn containers_nix(state: State) -> Seq<char> {
    let es = state.agents.entries_view();
    if es.len() == 0 {
        empty_containers_nix()
    } else {
        containers_nix_head() + container_blocks(es, state.defaults.port, es.len() as int) + "}\n"@
    }
}

/// The Nix module declaring the file systems of all agents of `agents` on
/// `device`, in the order of the table.
pub open spec fn filesystem_nix(agents: Table<Agent>, device: Seq<char>) -> Seq<char> {
    let es = agents.entries_view();
    if es.len() == 0 {
        empty_filesystem_nix()
    } else {
        filesystem_nix_head() + filesystem_blocks(es, device, es.len() as int) + "}\n"@
    }
}

/// Whether `part` occurs in `text`.
pub open spec fn has_part(text: Seq<char>, part: Seq<char>) -> bool {
    exists|pre: Seq<char>, post: Seq<char>| #[trigger] (pre + part + post) == text
}

/// The declarations of the first `n` agents hold the declaration of each
/// agent before position `n`.
proof fn lemma_blocks_have_each(es: Seq<(Seq<char>, Agent)>, device: Seq<char>, n: int, i: int)
    requires
        0 <= i < n <= es.len(),
    ensures
        exists|pre: Seq<char>, post: Seq<char>|
            #[trigger] (pre + filesystem_block(es[i].0, device) + post) == filesystem_blocks(es, device, n),
    decreases n,
{
    let blk = filesystem_block(es[i].0, device);
    if i == n - 1 {
        let pre = filesystem_blocks(es, device, n - 1);
        let post = Seq::<char>::empty();
        assert(pre + blk + post == filesystem_blocks(es, device, n));
    } else {
        lemma_blocks_have_each(es, device, n - 1, i);
        let (pre, post) = choose|pre: Seq<char>, post: Seq<char>|
            #[trigger] (pre + blk + post) == filesystem_blocks(es, device, n - 1);
        let post2 = post + filesystem_block(es[n - 1].0, device);
        assert(pre + blk + post2 == filesystem_blocks(es, device, n));
    }
}

/// The declaration of agent `name` mounts the btrfs subvolume that the btrfs
/// manager names for it: its options hold `subvol=` and that subvolume.
proof fn lemma_block_names_subvolume(name: Seq<char>, device: Seq<char>)
    ensures
        has_part(filesystem_block(name, device), "subvol="@ + agent_subvol(name)),
{
    reveal_strlit("  fileSystems.\"/var/lib/agents/");
    reveal_strlit("\" = {\n    device = \"");
    reveal_strlit("\";\n    fsType = \"btrfs\";\n    options = [ \"subvol=@agents/");
    reveal_strlit("\";\n    fsType = \"btrfs\";\n    options = [ \"");
    reveal_strlit("\" \"compress=zstd\" \"noatime\" ];\n  };\n\n");
    reveal_strlit("subvol=");
    reveal_strlit("@agents");
    let pre = "  fileSystems.\"/var/lib/agents/"@ + name + "\" = {\n    device = \""@ + device
        + "\";\n    fsType = \"btrfs\";\n    options = [ \""@;
    let part = "subvol="@ + agent_subvol(name);
    let post = "\" \"compress=zstd\" \"noatime\" ];\n  };\n\n"@;
    assert(pre + part + post =~= filesystem_block(name, device));
}

/// Every agent of a table has its own declaration in the file-system module
/// generated for it: the block that mounts the agent's btrfs subvolume
/// (`subvol=` and the subvolume the btrfs manager names for the agent) at
/// `/var/lib/agents/<name>` with file-system type btrfs. A table without
/// agents gives the module that declares no file systems.
pub proof fn law_filesystem_module_has_each_agent(agents: Table<Agent>, device: Seq<char>, name: Seq<char>)
    requires
        agents@.contains_key(name),
    ensures
        has_part(filesystem_nix(agents, device), filesystem_block(name, device)),
        has_part(filesystem_block(name, device), "subvol="@ + agent_subvol(name)),
{
    let es = agents.entries_view();
    assert(agents.has(name));
    let i = choose|i: int| 0 <= i < agents.keys().len() && agents.keys()[i] == name;
    assert(es[i].0 == name);
    lemma_blocks_have_each(es, device, es.len() as int, i);
    let blk = filesystem_block(name, device);
    let (pre, post) = choose|pre: Seq<char>, post: Seq<char>|
        #[trigger] (pre + blk + post) == filesystem_blocks(es, device, es.len() as int);
    let pre2 = filesystem_nix_head() + pre;
    let post2 = post + "}\n"@;
    assert(pre2 + blk + post2 =~= filesystem_nix(agents, device));
    lemma_block_names_subvolume(name, device);
}

/// The declarations of the first `k` agents are those `k` blocks, one after
/// the other.
proof fn lemma_blocks_flatten(es: Seq<(Seq<char>, Agent)>, device: Seq<char>, k: int)
    requires
        0 <= k <= es.len(),
    ensures
        filesystem_blocks(es, device, k)
            == Seq::new(k as nat, |i: int| filesystem_block(es[i].0, device)).flatten_alt(),
    decreases k,
{
    let bs = Seq::new(k as nat, |i: int| filesystem_block(es[i].0, device));
    if k > 0 {
        lemma_blocks_flatten(es, device, k - 1);
        assert(bs.drop_last() =~= Seq::new((k - 1) as nat, |i: int| filesystem_block(es[i].0, device)));
    } else {
        assert(bs.len() == 0);
    }
}

/// The file-system module of a table with agents is its head, then exactly
/// one declaration per agent, the `i`-th for the `i`-th agent of the table,
/// then the closing brace.
pub proof fn law_filesystem_module_one_block_per_agent(agents: Table<Agent>, device: Seq<char>)
    requires
        agents.count() > 0,
    ensures
        filesystem_nix(agents, device) == filesystem_nix_head()
            + Seq::new(agents.count(), |i: int| filesystem_block(agents.keys()[i], device)).flatten() + "}\n"@,
{
    let es = agents.entries_view();
    let n = es.len() as int;
    lemma_blocks_flatten(es, device, n);
    let bs = Seq::new(n as nat, |i: int| filesystem_block(es[i].0, device));
    let ks = Seq::new(agents.count(), |i: int| filesystem_block(agents.keys()[i], device));
    assert(bs =~= ks);
    ks.lemma_flatten_and_flatten_alt_are_equivalent();
}

/// A table without agents gives the module that declares no file systems.
pub proof fn law_filesystem_module_without_agents(agents: Table<Agent>, device: Seq<char>)
    requires
        agents.count() == 0,
    ensures
        filesystem_nix(agents, device) == empty_filesystem_nix(),
{
}

fn push_container_block(v: &mut Vec<char>, name: &str, a: &Agent, port: u16)
    ensures
        final(v)@ == old(v)@ + container_block(name@, *a, port),
{
    let ghost start = v@;
    push_str(v, "  containers.");
    push_str(v, name);
    push_str(v, " = {\n    autoStart = ");
    if a.enabled {
        push_str(v, "true");
    } else {
        push_str(v, "false");
    }
    push_str(v, ";\n    ephemeral = false;\n    privateNetwork = true;\n    hostAddress = \"");
    push_str(v, a.host_ip.as_str());
    push_str(v, "\";\n    localAddress = \"");
    push_str(v, a.container_ip.as_str());
    push_str(v, "\";\n    \n    bindMounts = {\n      \"/workspace\" = {\n        hostPath = \"/var/lib/agents/");
    push_str(v, name);
    push_str(v, "\";\n        isReadOnly = false;\n      };\n    };\n    \n    config = { config, pkgs, lib, ... }: {\n      imports = [\n        openzerg.nixosModules.default\n      ];\n      \n      services.openzerg = {\n        enable = true;\n        package = openzerg.packages.${pkgs.stdenv.hostPlatform.system}.openzerg;\n        agentName = \"");
    push_str(v, name);
    push_str(v, "\";\n        managerUrl = \"ws://");
    push_str(v, a.host_ip.as_str());
    push_str(v, ":");
    push_decimal(v, port as usize);
    push_str(v, "\";\n        internalToken = \"");
    push_str(v, a.internal_token.as_str());
    push_str(v, "\";\n        workspace = \"/workspace\";\n      };\n      \n      networking.firewall.allowedTCPPorts = [ 8080 ];\n      \n      system.stateVersion = \"25.11\";\n    };\n  };\n");
    assert(v@ =~= start + container_block(name@, *a, port));
}

fn push_filesystem_block(v: &mut Vec<char>, name: &str, device: &str)
    ensures
        final(v)@ == old(v)@ + filesystem_block(name@, device@),
{
    let ghost start = v@;
    push_str(v, "  fileSystems.\"/var/lib/agents/");
    push_str(v, name);
    push_str(v, "\" = {\n    device = \"");
    push_str(v, device);
    push_str(v, "\";\n    fsType = \"btrfs\";\n    options = [ \"subvol=@agents/");
    push_str(v, name);
    push_str(v, "\" \"compress=zstd\" \"noatime\" ];\n  };\n\n");
    assert(v@ =~= start + filesystem_block(name@, device@));
}

impl AgentManager {
    /// The system flake directory `system_dir`; modules are generated into
    /// its `generated` directory.
    pub fn new(system_dir: &str) -> (m: AgentManager)
        ensures
            m.system_dir@ == system_dir@,
            m.generated_dir@ == path_join(system_dir@, "generated"@),
            m.template_dir is None,
    {
        AgentManager {
            system_dir: system_dir.to_owned(),
            generated_dir: join_path(system_dir, "generated"),
            template_dir: None,
        }
    }

    /// The same, taking the host's flake files from `template_dir`.
    pub fn with_template(self, template_dir: &str) -> (m: AgentManager)
        ensures
            m.system_dir == self.system_dir,
            m.generated_dir == self.generated_dir,
            m.template_dir matches Some(t) && t@ == template_dir@,
    {
        AgentManager {
            system_dir: self.system_dir,
            generated_dir: self.generated_dir,
            template_dir: Some(template_dir.to_owned()),
        }
    }

    /// The file the containers module is written to: `container.nix` in the
    /// generated directory.
    pub fn containers_nix_path(&self) -> (p: String)
        ensures
            p@ == path_join(self.generated_dir@, "container.nix"@),
    {
        join_path(self.generated_dir.as_str(), "container.nix")
    }

    /// The file the file-system module is written to: `filesystem.nix` in the
    /// generated directory.
    pub fn filesystem_nix_path(&self) -> (p: String)
        ensures
            p@ == path_join(self.generated_dir@, "filesystem.nix"@),
    {
        join_path(self.generated_dir.as_str(), "filesystem.nix")
    }

    /// The flake reference the host is rebuilt from: `<system dir>#zerg-swarm`.
    pub fn flake_ref(&self) -> (r: String)
        ensures
            r@ == self.system_dir@ + "#zerg-swarm"@,
    {
        concat2(self.system_dir.as_str(), "#zerg-swarm")
    }

    /// The arguments of `sudo` that rebuild and switch the host to its flake.
    pub fn rebuild_args(&self) -> (v: Vec<String>)
        ensures
            v@.len() == 4,
            v@[0]@ == "nixos-rebuild"@,
            v@[1]@ == "switch"@,
            v@[2]@ == "--flake"@,
            v@[3]@ == self.system_dir@ + "#zerg-swarm"@,
    {
        let mut v: Vec<String> = Vec::new();
        v.push("nixos-rebuild".to_owned());
        v.push("switch".to_owned());
        v.push("--flake".to_owned());
        v.push(self.flake_ref());
        v
    }

    /// What a finished run of the rebuild command amounts to: nothing when it
    /// exited successfully, else the configuration error
    /// "nixos-rebuild failed".
    pub fn rebuild_outcome(succeeded: bool) -> (r: Result<(), Error>)
        ensures
            succeeded ==> r is Ok,
            !succeeded ==> (r matches Err(Error::Config(m)) && m@ == "nixos-rebuild failed"@),
    {
        if succeeded {
            Ok(())
        } else {
            Err(Error::Config("nixos-rebuild failed".to_owned()))
        }
    }

    /// The Nix module declaring one container per agent of `state`.
    pub fn generate_containers_nix(&self, state: &State) -> (s: String)
        ensures
            s@ == containers_nix(*state),
    {
        let n = state.agents.len();
        if n == 0 {
            return "# Auto-generated by Zerg Swarm\n# No containers configured\n\n{ config, pkgs, lib, openzerg, ... }:\n\n{\n  # No containers\n}\n".to_owned();
        }
        let mut v: Vec<char> = Vec::new();
        push_str(&mut v, "# Auto-generated by Zerg Swarm\n# DO NOT EDIT MANUALLY\n\n{ config, pkgs, lib, openzerg, ... }:\n\n{\n");
        let ghost es = state.agents.entries_view();
        let ghost head = v@;
        let mut i: usize = 0;
        while i < n
            invariant
                i <= n,
                n == es.len(),
                es == state.agents.entries_view(),
                v@ == head + container_blocks(es, state.defaults.port, i as int),
            decreases n - i,
        {
            let name = state.agents.key_at(i);
            let a = state.agents.value_at(i);
            proof {
                assert(name@ == es[i as int].0);
            }
            push_container_block(&mut v, name.as_str(), a, state.defaults.port);
            proof {
                assert(head + container_blocks(es, state.defaults.port, i as int) + container_block(es[i as int].0, es[i as int].1, state.defaults.port)
                    =~= head + container_blocks(es, state.defaults.port, i + 1));
            }
            i = i + 1;
        }
        push_str(&mut v, "}\n");
        string_of(&v)
    }

    /// The Nix module declaring one btrfs file system per agent of `agents`,
    /// each a subvolume of `btrfs_device`.
    pub fn generate_filesystem_nix(&self, agents: &Table<Agent>, btrfs_device: &str) -> (s: String)
        ensures
            s@ == filesystem_nix(*agents, btrfs_device@),
    {
        let n = agents.len();
        if n == 0 {
            return "# Auto-generated by Zerg Swarm\n# No agent filesystems\n\n{ config, ... }:\n\n{\n  # No agent filesystems\n}\n".to_owned();
        }
        let mut v: Vec<char> = Vec::new();
        push_str(&mut v, "# Auto-generated by Zerg Swarm\n# DO NOT EDIT MANUALLY\n\n{ config, ... }:\n\n{\n");
        let ghost es = agents.entries_view();
        let ghost head = v@;
        let mut i: usize = 0;
        while i < n
            invariant
                i <= n,
                n == es.len(),
                es == agents.entries_view(),
                v@ == head + filesystem_blocks(es, btrfs_device@, i as int),
            decreases n - i,
        {
            let name = agents.key_at(i);
            proof {
                assert(name@ == es[i as int].0);
            }
            push_filesystem_block(&mut v, name.as_str(), btrfs_device);
            proof {
                assert(head + filesystem_blocks(es, btrfs_device@, i as int) + filesystem_block(es[i as int].0, btrfs_device@)
                    =~= head + filesystem_blocks(es, btrfs_device@, i + 1));
            }
            i = i + 1;
        }
        push_str(&mut v, "}\n");
        string_of(&v)
    }

    /// Where agent `name`'s subvolume is created on the host:
    /// `/home/@agents/<name>`.
    pub fn host_subvolume_path(name: &str) -> (p: String)
        ensures
            p@ == path_join("/home/@agents"@, name@),
    {
        join_path("/home/@agents", name)
    }

    /// The files copied from the template directory into the system
    /// directory, as (source, destination) pairs; none without a template
    /// directory.
    pub fn template_copies(&self) -> (v: Vec<(String, String)>)
        ensures
            self.template_dir is None ==> v@.len() == 0,
            self.template_dir matches Some(t) ==> {
                &&& v@.len() == 3
                &&& v@[0].0@ == path_join(t@, "flake.nix"@) && v@[0].1@ == path_join(self.system_dir@, "flake.nix"@)
                &&& v@[1].0@ == path_join(t@, "configuration.nix"@) && v@[1].1@ == path_join(self.system_dir@, "configuration.nix"@)
                &&& v@[2].0@ == path_join(t@, "hardware-configuration.nix"@) && v@[2].1@ == path_join(self.system_dir@, "hardware-configuration.nix"@)
            },
    {
        let mut v: Vec<(String, String)> = Vec::new();
        match &self.template_dir {
            None => {},
            Some(t) => {
                v.push((join_path(t.as_str(), "flake.nix"), join_path(self.system_dir.as_str(), "flake.nix")));
                v.push((join_path(t.as_str(), "configuration.nix"), join_path(self.system_dir.as_str(), "configuration.nix")));
                v.push((join_path(t.as_str(), "hardware-configuration.nix"), join_path(self.system_dir.as_str(), "hardware-configuration.nix")));
            },
        }
        v
    }
}

} // verus!
