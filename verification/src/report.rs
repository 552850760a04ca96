//! What the command line prints: tables of agents, tools, models, keys and
//! checkpoints, and the details of one agent or tool. Columns are padded on
//! the right to their width, as `{:<width}` pads them.

use vstd::prelude::*;
use crate::models::{provider_type_name, Agent, CheckpointMeta, Provider, Skill, State, Tool};
use crate::text::{chars_of, push_str, string_of};
use vstd::string::StringSliceAdditionalSpecFns;
use vstd::utf8::{decode_utf8, encode_utf8, is_char_boundary};

verus! {

/// `s` padded with spaces on the right to `w` characters.
pub open spec fn pad(s: Seq<char>, w: nat) -> Seq<char> {
    if s.len() >= w {
        s
    } else {
        s + Seq::new((w - s.len()) as nat, |i: int| ' ')
    }
}

/// Cells, each padded to its width, separated by single spaces.
pub open spec fn joined(cells: Seq<(Seq<char>, nat)>) -> Seq<char>
    decreases cells.len(),
{
    if cells.len() == 0 {
        Seq::empty()
    } else if cells.len() == 1 {
        pad(cells[0].0, cells[0].1)
    } else {
        joined(cells.drop_last()) + seq![' '] + pad(cells.last().0, cells.last().1)
    }
}

/// `n` dashes.
pub open spec fn dashes(n: nat) -> Seq<char> {
    Seq::new(n, |i: int| '-')
}

/// `yes` or `no`.
pub open spec fn yes_no(b: bool) -> Seq<char> {
    if b {
        "yes"@
    } else {
        "no"@
    }
}

/// Cells as character sequences with widths.
pub open spec fn cells_view(v: Seq<(String, usize)>) -> Seq<(Seq<char>, nat)> {
    v.map_values(|c: (String, usize)| (c.0@, c.1 as nat))
}

/// The lines as character sequences.
pub open spec fn lines_view(v: Seq<String>) -> Seq<Seq<char>> {
    v.map_values(|s: String| s@)
}

fn push_padded(v: &mut Vec<char>, s: &str, w: usize)
    ensures
        final(v)@ == old(v)@ + pad(s@, w as nat),
{
    let n = s.unicode_len();
    push_str(v, s);
    if n < w {
        let ghost mid = v@;
        let mut k: usize = n;
        while k < w
            invariant
                n <= k <= w,
                n == s@.len(),
                v@ == mid + Seq::new((k - n) as nat, |i: int| ' '),
            decreases w - k,
        {
            v.push(' ');
            assert(mid + Seq::new((k + 1 - n) as nat, |i: int| ' ') =~= mid + Seq::new((k - n) as nat, |i: int| ' ').push(' '));
            k = k + 1;
        }
        assert(v@ =~= old(v)@ + pad(s@, w as nat));
    } else {
        assert(v@ =~= old(v)@ + pad(s@, w as nat));
    }
}

/// The cells joined into one line.
pub fn join_cells(cells: &Vec<(String, usize)>) -> (s: String)
    ensures
        s@ == joined(cells_view(cells@)),
{
    let mut v: Vec<char> = Vec::new();
    let mut i: usize = 0;
    while i < cells.len()
        invariant
            i <= cells@.len(),
            v@ == joined(cells_view(cells@).take(i as int)),
        decreases cells@.len() - i,
    {
        let ghost before = v@;
        if i > 0 {
            v.push(' ');
        }
        push_padded(&mut v, cells[i].0.as_str(), cells[i].1);
        proof {
            let t = cells_view(cells@).take(i + 1);
            assert(t.drop_last() =~= cells_view(cells@).take(i as int));
            assert(t.last() == (cells@[i as int].0@, cells@[i as int].1 as nat));
            if i == 0 {
                assert(v@ =~= joined(t));
            } else {
                assert(v@ =~= joined(t.drop_last()) + seq![' '] + pad(t.last().0, t.last().1));
            }
        }
        i = i + 1;
    }
    assert(cells_view(cells@).take(cells@.len() as int) =~= cells_view(cells@));
    string_of(&v)
}

/// A line of `n` dashes.
pub fn rule(n: usize) -> (s: String)
    ensures
        s@ == dashes(n as nat),
{
    let mut v: Vec<char> = Vec::new();
    let mut k: usize = 0;
    while k < n
        invariant
            k <= n,
            v@ == dashes(k as nat),
        decreases n - k,
    {
        v.push('-');
        assert(v@ =~= dashes((k + 1) as nat));
        k = k + 1;
    }
    string_of(&v)
}

fn cell(s: &str, w: usize) -> (c: (String, usize))
    ensures
        c.0@ == s@,
        c.1 == w,
{
    (s.to_owned(), w)
}

/// The heading of the agents table.
pub open spec fn agent_heading() -> Seq<char> {
    joined(seq![("NAME"@, 20nat), ("ENABLED"@, 8nat), ("CONTAINER_IP"@, 15nat), ("HOST_IP"@, 15nat)])
}

/// The row of agent `name` in the agents table.
pub open spec fn agent_row(name: Seq<char>, a: Agent) -> Seq<char> {
    joined(seq![(name, 20nat), (yes_no(a.enabled), 8nat), (a.container_ip@, 15nat), (a.host_ip@, 15nat)])
}

/// The agents table of `state`, in the order of the agents.
pub open spec fn agent_table(state: State) -> Seq<Seq<char>> {
    let es = state.agents.entries_view();
    if es.len() == 0 {
        seq!["No agents found."@]
    } else {
        seq![agent_heading(), dashes(60)] + es.map_values(|e: (Seq<char>, Agent)| agent_row(e.0, e.1))
    }
}

fn four_cells(a: &str, wa: usize, b: &str, wb: usize, c: &str, wc: usize, d: &str, wd: usize) -> (s: String)
    ensures
        s@ == joined(seq![(a@, wa as nat), (b@, wb as nat), (c@, wc as nat), (d@, wd as nat)]),
{
    let mut v: Vec<(String, usize)> = Vec::new();
    v.push(cell(a, wa));
    v.push(cell(b, wb));
    v.push(cell(c, wc));
    v.push(cell(d, wd));
    assert(cells_view(v@) =~= seq![(a@, wa as nat), (b@, wb as nat), (c@, wc as nat), (d@, wd as nat)]);
    join_cells(&v)
}

fn three_cells(a: &str, wa: usize, b: &str, wb: usize, c: &str, wc: usize) -> (s: String)
    ensures
        s@ == joined(seq![(a@, wa as nat), (b@, wb as nat), (c@, wc as nat)]),
{
    let mut v: Vec<(String, usize)> = Vec::new();
    v.push(cell(a, wa));
    v.push(cell(b, wb));
    v.push(cell(c, wc));
    assert(cells_view(v@) =~= seq![(a@, wa as nat), (b@, wb as nat), (c@, wc as nat)]);
    join_cells(&v)
}

/// The lines `agent list` prints.
pub fn agent_table_lines(state: &State) -> (v: Vec<String>)
    ensures
        lines_view(v@) == agent_table(*state),
{
    let n = state.agents.len();
    let mut v: Vec<String> = Vec::new();
    if n == 0 {
        v.push("No agents found.".to_owned());
        assert(lines_view(v@) =~= agent_table(*state));
        return v;
    }
    v.push(four_cells("NAME", 20, "ENABLED", 8, "CONTAINER_IP", 15, "HOST_IP", 15));
    v.push(rule(60));
    let ghost es = state.agents.entries_view();
    let ghost rows = es.map_values(|e: (Seq<char>, Agent)| agent_row(e.0, e.1));
    let mut i: usize = 0;
    while i < n
        invariant
            i <= n,
            n == es.len(),
            es == state.agents.entries_view(),
            rows == es.map_values(|e: (Seq<char>, Agent)| agent_row(e.0, e.1)),
            lines_view(v@) == seq![agent_heading(), dashes(60)] + rows.take(i as int),
        decreases n - i,
    {
        let name = state.agents.key_at(i);
        let a = state.agents.value_at(i);
        let enabled = if a.enabled { "yes" } else { "no" };
        let line = four_cells(name.as_str(), 20, enabled, 8, a.container_ip.as_str(), 15, a.host_ip.as_str(), 15);
        let ghost before = v@;
        v.push(line);
        proof {
            assert(name@ == es[i as int].0);
            assert(rows[i as int] == agent_row(es[i as int].0, es[i as int].1));
            assert(lines_view(v@) =~= lines_view(before).push(line@));
            assert(rows.take(i + 1) =~= rows.take(i as int).push(rows[i as int]));
        }
        i = i + 1;
    }
    assert(rows.take(n as int) =~= rows);
    v
}

/// The row of model `id` in the models table: its name, its model and the
/// name of its provider (`unknown` where that is gone).
pub open spec fn model_row(state: State, id: Seq<char>, m: crate::models::Model) -> Seq<char> {
    let provider = if state.providers@.contains_key(m.provider_id@) {
        state.providers@[m.provider_id@].name@
    } else {
        "unknown"@
    };
    joined(seq![(id, 36nat), (m.name@, 20nat), (m.model_name@, 20nat), (provider, 20nat)])
}

/// The models table of `state`, in the order of the models.
pub open spec fn model_table(state: State) -> Seq<Seq<char>> {
    let es = state.models.entries_view();
    if es.len() == 0 {
        seq!["No models found."@]
    } else {
        seq![joined(seq![("ID"@, 36nat), ("NAME"@, 20nat), ("MODEL"@, 20nat), ("PROVIDER"@, 20nat)]), dashes(100)]
            + es.map_values(|e: (Seq<char>, crate::models::Model)| model_row(state, e.0, e.1))
    }
}

/// The lines `model list` prints.
pub fn model_table_lines(state: &State) -> (v: Vec<String>)
    requires
        state.wf(),
    ensures
        lines_view(v@) == model_table(*state),
{
    let n = state.models.len();
    let mut v: Vec<String> = Vec::new();
    if n == 0 {
        v.push("No models found.".to_owned());
        assert(lines_view(v@) =~= model_table(*state));
        return v;
    }
    v.push(four_cells("ID", 36, "NAME", 20, "MODEL", 20, "PROVIDER", 20));
    v.push(rule(100));
    let ghost es = state.models.entries_view();
    let ghost rows = es.map_values(|e: (Seq<char>, crate::models::Model)| model_row(*state, e.0, e.1));
    let ghost head = lines_view(v@);
    let mut i: usize = 0;
    while i < n
        invariant
            i <= n,
            n == es.len(),
            state.wf(),
            es == state.models.entries_view(),
            rows == es.map_values(|e: (Seq<char>, crate::models::Model)| model_row(*state, e.0, e.1)),
            lines_view(v@) == head + rows.take(i as int),
        decreases n - i,
    {
        let id = state.models.key_at(i);
        let m = state.models.value_at(i);
        let provider = match state.providers.get(m.provider_id.as_str()) {
            Some(p) => p.name.clone(),
            None => "unknown".to_owned(),
        };
        let line = four_cells(id.as_str(), 36, m.name.as_str(), 20, m.model_name.as_str(), 20, provider.as_str(), 20);
        let ghost before = v@;
        v.push(line);
        proof {
            assert(id@ == es[i as int].0);
            assert(rows[i as int] == model_row(*state, es[i as int].0, es[i as int].1));
            assert(lines_view(v@) =~= lines_view(before).push(line@));
            assert(rows.take(i + 1) =~= rows.take(i as int).push(rows[i as int]));
        }
        i = i + 1;
    }
    assert(rows.take(n as int) =~= rows);
    v
}

/// The row of API key `id` in the keys table: its name and the name of its
/// provider (`unknown` where that is gone).
pub open spec fn key_row(state: State, id: Seq<char>, k: crate::models::ApiKey) -> Seq<char> {
    let provider = if state.providers@.contains_key(k.provider_id@) {
        state.providers@[k.provider_id@].name@
    } else {
        "unknown"@
    };
    joined(seq![(id, 36nat), (k.name@, 20nat), (provider, 20nat)])
}

/// The API keys table of `state`, in the order of the keys.
pub open spec fn key_table(state: State) -> Seq<Seq<char>> {
    let es = state.api_keys.entries_view();
    if es.len() == 0 {
        seq!["No API keys found."@]
    } else {
        seq![joined(seq![("ID"@, 36nat), ("NAME"@, 20nat), ("PROVIDER"@, 20nat)]), dashes(80)]
            + es.map_values(|e: (Seq<char>, crate::models::ApiKey)| key_row(state, e.0, e.1))
    }
}

/// The lines `key list` prints.
pub fn key_table_lines(state: &State) -> (v: Vec<String>)
    requires
        state.wf(),
    ensures
        lines_view(v@) == key_table(*state),
{
    let n = state.api_keys.len();
    let mut v: Vec<String> = Vec::new();
    if n == 0 {
        v.push("No API keys found.".to_owned());
        assert(lines_view(v@) =~= key_table(*state));
        return v;
    }
    v.push(three_cells("ID", 36, "NAME", 20, "PROVIDER", 20));
    v.push(rule(80));
    let ghost es = state.api_keys.entries_view();
    let ghost rows = es.map_values(|e: (Seq<char>, crate::models::ApiKey)| key_row(*state, e.0, e.1));
    let ghost head = lines_view(v@);
    let mut i: usize = 0;
    while i < n
        invariant
            i <= n,
            n == es.len(),
            state.wf(),
            es == state.api_keys.entries_view(),
            rows == es.map_values(|e: (Seq<char>, crate::models::ApiKey)| key_row(*state, e.0, e.1)),
            lines_view(v@) == head + rows.take(i as int),
        decreases n - i,
    {
        let id = state.api_keys.key_at(i);
        let k = state.api_keys.value_at(i);
        let provider = match state.providers.get(k.provider_id.as_str()) {
            Some(p) => p.name.clone(),
            None => "unknown".to_owned(),
        };
        let line = three_cells(id.as_str(), 36, k.name.as_str(), 20, provider.as_str(), 20);
        let ghost before = v@;
        v.push(line);
        proof {
            assert(id@ == es[i as int].0);
            assert(rows[i as int] == key_row(*state, es[i as int].0, es[i as int].1));
            assert(lines_view(v@) =~= lines_view(before).push(line@));
            assert(rows.take(i + 1) =~= rows.take(i as int).push(rows[i as int]));
        }
        i = i + 1;
    }
    assert(rows.take(n as int) =~= rows);
    v
}

/// The row of provider `id` in the providers table: its kind and name.
pub open spec fn provider_row(id: Seq<char>, p: Provider) -> Seq<char> {
    joined(seq![(id, 36nat), (provider_type_name(p.provider_type), 15nat), (p.name@, 30nat)])
}

/// The providers table of `state`, in the order of the providers.
pub open spec fn provider_table(state: State) -> Seq<Seq<char>> {
    let es = state.providers.entries_view();
    if es.len() == 0 {
        seq!["No providers found."@]
    } else {
        seq![joined(seq![("ID"@, 36nat), ("TYPE"@, 15nat), ("NAME"@, 30nat)]), dashes(85)]
            + es.map_values(|e: (Seq<char>, Provider)| provider_row(e.0, e.1))
    }
}

/// The lines `provider list` prints.
pub fn provider_table_lines(state: &State) -> (v: Vec<String>)
    ensures
        lines_view(v@) == provider_table(*state),
{
    let n = state.providers.len();
    let mut v: Vec<String> = Vec::new();
    if n == 0 {
        v.push("No providers found.".to_owned());
        assert(lines_view(v@) =~= provider_table(*state));
        return v;
    }
    v.push(three_cells("ID", 36, "TYPE", 15, "NAME", 30));
    v.push(rule(85));
    let ghost es = state.providers.entries_view();
    let ghost rows = es.map_values(|e: (Seq<char>, Provider)| provider_row(e.0, e.1));
    let ghost head = lines_view(v@);
    let mut i: usize = 0;
    while i < n
        invariant
            i <= n,
            n == es.len(),
            es == state.providers.entries_view(),
            rows == es.map_values(|e: (Seq<char>, Provider)| provider_row(e.0, e.1)),
            lines_view(v@) == head + rows.take(i as int),
        decreases n - i,
    {
        let id = state.providers.key_at(i);
        let p = state.providers.value_at(i);
        let line = three_cells(id.as_str(), 36, p.provider_type.as_str(), 15, p.name.as_str(), 30);
        let ghost before = v@;
        v.push(line);
        proof {
            assert(id@ == es[i as int].0);
            assert(rows[i as int] == provider_row(es[i as int].0, es[i as int].1));
            assert(lines_view(v@) =~= lines_view(before).push(line@));
            assert(rows.take(i + 1) =~= rows.take(i as int).push(rows[i as int]));
        }
        i = i + 1;
    }
    assert(rows.take(n as int) =~= rows);
    v
}

/// The row of skill `slug` in the skills table: its version and repository.
pub open spec fn skill_row(slug: Seq<char>, k: Skill) -> Seq<char> {
    joined(seq![(slug, 20nat), (k.version@, 10nat), (k.forgejo_repo@, 30nat)])
}

/// The skills table of `state`, in the order of the skills.
pub open spec fn skill_table(state: State) -> Seq<Seq<char>> {
    let es = state.skills.entries_view();
    if es.len() == 0 {
        seq!["No skills found."@]
    } else {
        seq![joined(seq![("SLUG"@, 20nat), ("VERSION"@, 10nat), ("REPO"@, 30nat)]), dashes(70)]
            + es.map_values(|e: (Seq<char>, Skill)| skill_row(e.0, e.1))
    }
}

/// The lines `skill list` prints.
pub fn skill_table_lines(state: &State) -> (v: Vec<String>)
    ensures
        lines_view(v@) == skill_table(*state),
{
    let n = state.skills.len();
    let mut v: Vec<String> = Vec::new();
    if n == 0 {
        v.push("No skills found.".to_owned());
        assert(lines_view(v@) =~= skill_table(*state));
        return v;
    }
    v.push(three_cells("SLUG", 20, "VERSION", 10, "REPO", 30));
    v.push(rule(70));
    let ghost es = state.skills.entries_view();
    let ghost rows = es.map_values(|e: (Seq<char>, Skill)| skill_row(e.0, e.1));
    let ghost head = lines_view(v@);
    let mut i: usize = 0;
    while i < n
        invariant
            i <= n,
            n == es.len(),
            es == state.skills.entries_view(),
            rows == es.map_values(|e: (Seq<char>, Skill)| skill_row(e.0, e.1)),
            lines_view(v@) == head + rows.take(i as int),
        decreases n - i,
    {
        let slug = state.skills.key_at(i);
        let k = state.skills.value_at(i);
        let line = three_cells(slug.as_str(), 20, k.version.as_str(), 10, k.forgejo_repo.as_str(), 30);
        let ghost before = v@;
        v.push(line);
        proof {
            assert(slug@ == es[i as int].0);
            assert(rows[i as int] == skill_row(es[i as int].0, es[i as int].1));
            assert(lines_view(v@) =~= lines_view(before).push(line@));
            assert(rows.take(i + 1) =~= rows.take(i as int).push(rows[i as int]));
        }
        i = i + 1;
    }
    assert(rows.take(n as int) =~= rows);
    v
}

/// The row of tool `slug` in the tools table.
pub open spec fn tool_row(slug: Seq<char>, t: Tool) -> Seq<char> {
    joined(seq![(slug, 20nat), (t.version@, 10nat), (t.forgejo_repo@, 30nat), (yes_no(t.enabled), 8nat)])
}

/// The tools table of `state`, in the order of the tools.
pub open spec fn tool_table(state: State) -> Seq<Seq<char>> {
    let es = state.tools.entries_view();
    if es.len() == 0 {
        seq!["No tools found."@]
    } else {
        seq![joined(seq![("SLUG"@, 20nat), ("VERSION"@, 10nat), ("REPO"@, 30nat), ("ENABLED"@, 8nat)]), dashes(80)]
            + es.map_values(|e: (Seq<char>, Tool)| tool_row(e.0, e.1))
    }
}

/// The lines `tool list` prints.
pub fn tool_table_lines(state: &State) -> (v: Vec<String>)
    ensures
        lines_view(v@) == tool_table(*state),
{
    let n = state.tools.len();
    let mut v: Vec<String> = Vec::new();
    if n == 0 {
        v.push("No tools found.".to_owned());
        assert(lines_view(v@) =~= tool_table(*state));
        return v;
    }
    v.push(four_cells("SLUG", 20, "VERSION", 10, "REPO", 30, "ENABLED", 8));
    v.push(rule(80));
    let ghost es = state.tools.entries_view();
    let ghost rows = es.map_values(|e: (Seq<char>, Tool)| tool_row(e.0, e.1));
    let ghost head = lines_view(v@);
    let mut i: usize = 0;
    while i < n
        invariant
            i <= n,
            n == es.len(),
            es == state.tools.entries_view(),
            rows == es.map_values(|e: (Seq<char>, Tool)| tool_row(e.0, e.1)),
            lines_view(v@) == head + rows.take(i as int),
        decreases n - i,
    {
        let slug = state.tools.key_at(i);
        let t = state.tools.value_at(i);
        let enabled = if t.enabled { "yes" } else { "no" };
        let line = four_cells(slug.as_str(), 20, t.version.as_str(), 10, t.forgejo_repo.as_str(), 30, enabled, 8);
        let ghost before = v@;
        v.push(line);
        proof {
            assert(slug@ == es[i as int].0);
            assert(rows[i as int] == tool_row(es[i as int].0, es[i as int].1));
            assert(lines_view(v@) =~= lines_view(before).push(line@));
            assert(rows.take(i + 1) =~= rows.take(i as int).push(rows[i as int]));
        }
        i = i + 1;
    }
    assert(rows.take(n as int) =~= rows);
    v
}

/// The row of a checkpoint in the checkpoints table, with its agent where
/// `with_agent` holds.
pub open spec fn checkpoint_row(m: CheckpointMeta, with_agent: bool) -> Seq<char> {
    if with_agent {
        joined(seq![(m.id@, 30nat), (m.agent_name@, 15nat), (m.created_at@, 20nat), (m.description@, 0nat)])
    } else {
        joined(seq![(m.id@, 30nat), (m.created_at@, 20nat), (m.description@, 0nat)])
    }
}

/// The checkpoints table: of all agents (`agent` is `None`, with an agent
/// column) or of one agent.
pub open spec fn checkpoint_table(ms: Seq<CheckpointMeta>, agent: Option<Seq<char>>) -> Seq<Seq<char>> {
    let with_agent = agent is None;
    let rows = ms.map_values(|m: CheckpointMeta| checkpoint_row(m, with_agent));
    match agent {
        None => if ms.len() == 0 {
            seq!["No checkpoints found"@]
        } else {
            seq![joined(seq![("ID"@, 30nat), ("AGENT"@, 15nat), ("CREATED"@, 20nat), ("DESCRIPTION"@, 0nat)]), dashes(85)]
                + rows
        },
        Some(a) => if ms.len() == 0 {
            seq!["No checkpoints found for agent '"@ + a + "'"@]
        } else {
            seq![
                "Checkpoints for agent '"@ + a + "':\n"@,
                joined(seq![("ID"@, 30nat), ("CREATED"@, 20nat), ("DESCRIPTION"@, 0nat)]),
                dashes(70)
            ] + rows
        },
    }
}

/// The lines `checkpoint list` (no agent) or `agent list-checkpoints`
/// (one agent) prints for the checkpoints `ms`.
pub fn checkpoint_table_lines(ms: &Vec<CheckpointMeta>, agent: Option<&str>) -> (v: Vec<String>)
    ensures
        lines_view(v@) == checkpoint_table(
            ms@,
            match agent {
                Some(a) => Some(a@),
                None => None,
            },
        ),
{
    let with_agent = agent.is_none();
    let ghost av = match agent {
        Some(a) => Some(a@),
        None => None::<Seq<char>>,
    };
    let ghost rows = ms@.map_values(|m: CheckpointMeta| checkpoint_row(m, with_agent));
    let mut v: Vec<String> = Vec::new();
    match agent {
        None => {
            if ms.len() == 0 {
                v.push("No checkpoints found".to_owned());
                assert(lines_view(v@) =~= checkpoint_table(ms@, av));
                return v;
            }
            v.push(four_cells("ID", 30, "AGENT", 15, "CREATED", 20, "DESCRIPTION", 0));
            v.push(rule(85));
        },
        Some(a) => {
            if ms.len() == 0 {
                let mut l: Vec<char> = Vec::new();
                push_str(&mut l, "No checkpoints found for agent '");
                push_str(&mut l, a);
                push_str(&mut l, "'");
                v.push(string_of(&l));
                assert(lines_view(v@) =~= checkpoint_table(ms@, av));
                return v;
            }
            let mut l: Vec<char> = Vec::new();
            push_str(&mut l, "Checkpoints for agent '");
            push_str(&mut l, a);
            push_str(&mut l, "':\n");
            v.push(string_of(&l));
            v.push(three_cells("ID", 30, "CREATED", 20, "DESCRIPTION", 0));
            v.push(rule(70));
        },
    }
    let ghost head = lines_view(v@);
    assert(checkpoint_table(ms@, av) == head + rows);
    let mut i: usize = 0;
    while i < ms.len()
        invariant
            i <= ms@.len(),
            rows == ms@.map_values(|m: CheckpointMeta| checkpoint_row(m, with_agent)),
            lines_view(v@) == head + rows.take(i as int),
        decreases ms@.len() - i,
    {
        let m = &ms[i];
        let line = if with_agent {
            four_cells(m.id.as_str(), 30, m.agent_name.as_str(), 15, m.created_at.as_str(), 20, m.description.as_str(), 0)
        } else {
            three_cells(m.id.as_str(), 30, m.created_at.as_str(), 20, m.description.as_str(), 0)
        };
        let ghost before = v@;
        v.push(line);
        proof {
            assert(rows[i as int] == checkpoint_row(ms@[i as int], with_agent));
            assert(lines_view(v@) =~= lines_view(before).push(line@));
            assert(rows.take(i + 1) =~= rows.take(i as int).push(rows[i as int]));
        }
        i = i + 1;
    }
    assert(rows.take(ms@.len() as int) =~= rows);
    v
}

/// The lines `agent get` prints of agent `name`, with its Forgejo account
/// written as `forgejo_debug` (the `{:?}` form).
pub open spec fn agent_details(name: Seq<char>, a: Agent, forgejo_debug: Seq<char>) -> Seq<Seq<char>> {
    seq![
        "Agent: "@ + name,
        "  Enabled: "@ + if a.enabled { "true"@ } else { "false"@ },
        "  Container IP: "@ + a.container_ip@,
        "  Host IP: "@ + a.host_ip@,
        "  Forgejo Username: "@ + forgejo_debug,
        "  Internal Token: "@ + a.internal_token@,
        "  Created: "@ + a.created_at@,
        "  Updated: "@ + a.updated_at@
    ]
}

/// The text of an optional string as `{:?}` writes it.
pub uninterp spec fn debug_text(o: Option<Seq<char>>) -> Seq<char>;

/// An optional string as `format!("{:?}")` writes it: `None`, or `Some`
/// with the string quoted and escaped. The escaping is named by
/// `debug_text`; the text of `None` is `None`, as the derived `Debug` of
/// `Option` writes it.
#[verifier::external_body]
fn debug_opt_string(o: &Option<String>) -> (s: String)
    ensures
        s@ == debug_text(
            match o {
                Some(x) => Some(x@),
                None => None,
            },
        ),
        o is None ==> s@ == "None"@,
{
    format!("{:?}", o)
}

fn labelled(label: &str, value: &str) -> (s: String)
    ensures
        s@ == label@ + value@,
{
    let mut s = label.to_owned();
    s.append(value);
    s
}

/// The lines `agent get` prints of agent `name`.
pub fn agent_details_lines(name: &str, a: &Agent) -> (v: Vec<String>)
    ensures
        lines_view(v@) == agent_details(
            name@,
            *a,
            debug_text(
                match a.forgejo_username {
                    Some(x) => Some(x@),
                    None => None,
                },
            ),
        ),
{
    let mut v: Vec<String> = Vec::new();
    v.push(labelled("Agent: ", name));
    v.push(labelled("  Enabled: ", if a.enabled { "true" } else { "false" }));
    v.push(labelled("  Container IP: ", a.container_ip.as_str()));
    v.push(labelled("  Host IP: ", a.host_ip.as_str()));
    let dbg = debug_opt_string(&a.forgejo_username);
    v.push(labelled("  Forgejo Username: ", dbg.as_str()));
    v.push(labelled("  Internal Token: ", a.internal_token.as_str()));
    v.push(labelled("  Created: ", a.created_at.as_str()));
    v.push(labelled("  Updated: ", a.updated_at.as_str()));
    assert(lines_view(v@) =~= agent_details(
        name@,
        *a,
        debug_text(
            match a.forgejo_username {
                Some(x) => Some(x@),
                None => None,
            },
        ),
    ));
    v
}

/// The lines that list the agents' containers after flake files were
/// generated: `  - <name> (enabled|disabled) @ <container address>`.
pub open spec fn container_summary(state: State) -> Seq<Seq<char>> {
    state.agents.entries_view().map_values(
        |e: (Seq<char>, Agent)|
            "  - "@ + e.0 + " ("@ + if e.1.enabled { "enabled"@ } else { "disabled"@ } + ") @ "@ + e.1.container_ip@,
    )
}

/// The lines listing the agents' containers.
pub fn container_summary_lines(state: &State) -> (v: Vec<String>)
    ensures
        lines_view(v@) == container_summary(*state),
{
    let n = state.agents.len();
    let ghost es = state.agents.entries_view();
    let mut v: Vec<String> = Vec::new();
    let mut i: usize = 0;
    while i < n
        invariant
            i <= n,
            n == es.len(),
            es == state.agents.entries_view(),
            lines_view(v@) == container_summary(*state).take(i as int),
        decreases n - i,
    {
        let name = state.agents.key_at(i);
        let a = state.agents.value_at(i);
        let mut l: Vec<char> = Vec::new();
        push_str(&mut l, "  - ");
        push_str(&mut l, name.as_str());
        push_str(&mut l, " (");
        push_str(&mut l, if a.enabled { "enabled" } else { "disabled" });
        push_str(&mut l, ") @ ");
        push_str(&mut l, a.container_ip.as_str());
        let line = string_of(&l);
        let ghost before = v@;
        v.push(line);
        proof {
            assert(name@ == es[i as int].0);
            assert(lines_view(v@) =~= lines_view(before).push(line@));
            assert(container_summary(*state).take(i + 1) =~= container_summary(*state).take(i as int).push(
                container_summary(*state)[i as int],
            ));
        }
        i = i + 1;
    }
    assert(container_summary(*state).take(n as int) =~= container_summary(*state));
    v
}


/// Whether `commit` has a first eight bytes to cut: at least eight bytes of
/// UTF-8, with a character ending at byte eight.
pub open spec fn has_short_commit(commit: Seq<char>) -> bool {
    encode_utf8(commit).len() >= 8 && is_char_boundary(encode_utf8(commit), 8)
}

/// The characters of the first eight bytes of `commit`.
pub open spec fn short_commit_of(commit: Seq<char>) -> Seq<char> {
    decode_utf8(encode_utf8(commit).subrange(0, 8))
}

/// The first eight bytes of a commit hash.
pub fn short_commit(commit: &str) -> (s: String)
    requires
        has_short_commit(commit@),
    ensures
        s@ == short_commit_of(commit@),
{
    broadcast use vstd::utf8::group_utf8_lib;
    let (head, _) = commit.split_at(8);
    proof {
        assert(head.spec_bytes() == encode_utf8(head@));
        assert(decode_utf8(encode_utf8(head@)) == head@);
    }
    head.to_owned()
}

/// The text of a list of strings as `{:?}` writes it.
pub uninterp spec fn debug_list_text(v: Seq<Seq<char>>) -> Seq<char>;

/// A list of strings as `format!("{:?}")` writes it: the strings quoted and
/// escaped, between brackets, separated by `, `. The text is named by
/// `debug_list_text`.
#[verifier::external_body]
fn debug_strings(v: &Vec<String>) -> (s: String)
    ensures
        s@ == debug_list_text(lines_view(v@)),
{
    format!("{:?}", v)
}

/// The lines `tool get` prints of `t`, whose environment variables are
/// `env_vars`.
pub open spec fn tool_details(t: Tool, env_vars: Seq<Seq<char>>) -> Seq<Seq<char>> {
    seq![
        "Tool: "@ + t.slug@,
        "  Name: "@ + t.name@,
        "  Version: "@ + t.version@,
        "  Description: "@ + t.description@,
        "  Author: "@ + t.author_agent@,
        "  Repo: "@ + t.forgejo_repo@,
        "  Commit: "@ + short_commit_of(t.git_commit@),
        "  Entrypoint: "@ + t.entrypoint@,
        "  Enabled: "@ + if t.enabled { "true"@ } else { "false"@ },
        "  Allowed agents: "@ + debug_list_text(lines_view(t.allowed_agents@))
    ] + if env_vars.len() == 0 {
        Seq::empty()
    } else {
        seq!["  Env vars: "@ + debug_list_text(env_vars)]
    }
}

/// The lines `tool get` prints of `t`.
pub fn tool_details_lines(t: &Tool, env_vars: &Vec<String>) -> (v: Vec<String>)
    requires
        has_short_commit(t.git_commit@),
    ensures
        lines_view(v@) == tool_details(*t, lines_view(env_vars@)),
{
    let mut v: Vec<String> = Vec::new();
    v.push(labelled("Tool: ", t.slug.as_str()));
    v.push(labelled("  Name: ", t.name.as_str()));
    v.push(labelled("  Version: ", t.version.as_str()));
    v.push(labelled("  Description: ", t.description.as_str()));
    v.push(labelled("  Author: ", t.author_agent.as_str()));
    v.push(labelled("  Repo: ", t.forgejo_repo.as_str()));
    let c = short_commit(t.git_commit.as_str());
    v.push(labelled("  Commit: ", c.as_str()));
    v.push(labelled("  Entrypoint: ", t.entrypoint.as_str()));
    v.push(labelled("  Enabled: ", if t.enabled { "true" } else { "false" }));
    let allowed = debug_strings(&t.allowed_agents);
    v.push(labelled("  Allowed agents: ", allowed.as_str()));
    if env_vars.len() > 0 {
        let e = debug_strings(env_vars);
        v.push(labelled("  Env vars: ", e.as_str()));
    }
    assert(lines_view(v@) =~= tool_details(*t, lines_view(env_vars@)));
    v
}

/// The lines printed after tool `t` was cloned.
pub open spec fn tool_clone_summary(t: Tool) -> Seq<Seq<char>> {
    seq![
        "Tool '"@ + t.slug@ + "' cloned successfully:"@,
        "  Name: "@ + t.name@,
        "  Version: "@ + t.version@,
        "  Repo: "@ + t.forgejo_repo@,
        "  Entrypoint: "@ + t.entrypoint@
    ]
}

/// The lines printed after tool `t` was cloned.
pub fn tool_clone_summary_lines(t: &Tool) -> (v: Vec<String>)
    ensures
        lines_view(v@) == tool_clone_summary(*t),
{
    let mut v: Vec<String> = Vec::new();
    let mut first = "Tool '".to_owned();
    first.append(t.slug.as_str());
    first.append("' cloned successfully:");
    v.push(first);
    v.push(labelled("  Name: ", t.name.as_str()));
    v.push(labelled("  Version: ", t.version.as_str()));
    v.push(labelled("  Repo: ", t.forgejo_repo.as_str()));
    v.push(labelled("  Entrypoint: ", t.entrypoint.as_str()));
    assert(lines_view(v@) =~= tool_clone_summary(*t));
    v
}

} // verus!
