# cerebrate

A manager for a cluster of NixOS container agents: it keeps the agents, LLM
providers, models, API keys, tools and skills in a state file, generates the
Nix modules and btrfs commands for the agents' containers, checkpoints and
rolls agents back, proxies the agents' chat completions to their providers,
and serves a management API.

The decisions are made in `src/`, a library verified with Verus:

- `models`, `table`: the records and the keyed tables that hold them.
- `store`, `access`, `accounts`, `settings`: what each operation does to the
  state (agents and their subnets, providers, keys, models, tool and skill
  sharing, Forgejo accounts, imported configuration, stored defaults).
- `cli`: the command line grammar and its parser.
- `report`: the tables and details the command line prints.
- `btrfs`, `state`, `swarm::checkpoint`, `checkpoint`: subvolume plans,
  checkpoint naming, limits, ordering, rollback and cloning.
- `swarm::agent_manager`, `agent_manager`: the Nix modules, the host
  rebuild and the Incus container actions.
- `swarm::tool_manager`, `swarm::skill_manager`: sandboxed run commands,
  shell quoting, script outcomes, front matter.
- `swarm::proxy`, `auth`, `swarm::auth`, `connections`: key hashing and
  completion routing, bearer and basic authentication, agent sessions.
- `swarm::forgejo`, `api`: the Forgejo endpoints and the API's records.

`app/` is the program around it: argument and environment reading, the
state file, running `btrfs`, `git`, `incus` and sandboxes, HTTP to Forgejo
and the providers, and the axum server. `tests/` exercises the library on
concrete values.
