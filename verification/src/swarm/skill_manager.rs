//! Skills run on the host: where their files and secrets are kept, who may
//! run them, and the `nix-shell` command that runs one.

use vstd::prelude::*;
use crate::access::{admit_skill_run, check_skill_authorization, may_invoke};
use crate::models::{Skill, SkillType, State};
use crate::paths::{join_path, path_join};
use crate::swarm::tool_manager::{env_view, escape_single_quotes, lemma_env_push, shell_escape, strs, InvokeSkillResponse, ScriptCommand};
use crate::text::{chars_of, concat3, names_of, push_str, string_of, to_uppercase, uppercase_of};

verus! {

/// The files and secrets of skills below one data directory.
pub struct SkillManager {
    pub data_dir: String,
}

/// `s` with every `-` written as `_`.
pub open spec fn dashes_to_underscores(s: Seq<char>) -> Seq<char> {
    s.map_values(|c: char| if c == '-' { '_' } else { c })
}

/// The environment variable a skill's secret `key` is given in:
/// `SKILL_SECRET_` and the key in upper case with `_` for `-`.
pub open spec fn secret_env_name(key: Seq<char>) -> Seq<char> {
    "SKILL_SECRET_"@ + dashes_to_underscores(uppercase_of(key))
}

/// The shell command that runs skill `id`: its entry point, then its name and
/// its JSON input, each between single quotes; only the input is escaped.
pub open spec fn skill_run_line(entrypoint: Seq<char>, id: Seq<char>, input_json: Seq<char>) -> Seq<char> {
    entrypoint + " '"@ + id + "' '"@ + shell_escape(input_json) + "'"@
}

/// The environment of a skill run: its secrets, then `SKILL_ID` and
/// `SKILL_INPUT`.
pub open spec fn skill_env(secrets: Seq<(Seq<char>, Seq<char>)>, id: Seq<char>, input_json: Seq<char>) -> Seq<(Seq<char>, Seq<char>)> {
    secrets.map_values(|p: (Seq<char>, Seq<char>)| (secret_env_name(p.0), p.1)) + seq![
        ("SKILL_ID"@, id),
        ("SKILL_INPUT"@, input_json)
    ]
}

/// Writes `s` with every `-` as `_`.
fn replace_dashes(s: &str) -> (r: String)
    ensures
        r@ == dashes_to_underscores(s@),
{
    let v = chars_of(s);
    let mut out: Vec<char> = Vec::new();
    let mut i: usize = 0;
    while i < v.len()
        invariant
            i <= v@.len(),
            v@ == s@,
            out@ == dashes_to_underscores(s@.take(i as int)),
        decreases v@.len() - i,
    {
        if v[i] == '-' {
            out.push('_');
        } else {
            out.push(v[i]);
        }
        assert(out@ =~= dashes_to_underscores(s@.take(i + 1)));
        i = i + 1;
    }
    assert(s@.take(s@.len() as int) =~= s@);
    string_of(&out)
}

/// The environment variable a skill's secret `key` is given in.
pub fn secret_env_key(key: &str) -> (r: String)
    ensures
        r@ == secret_env_name(key@),
{
    let up = to_uppercase(key);
    let rep = replace_dashes(up.as_str());
    let mut v: Vec<char> = Vec::new();
    push_str(&mut v, "SKILL_SECRET_");
    push_str(&mut v, rep.as_str());
    string_of(&v)
}

impl SkillManager {
    /// The skills below `data_dir`.
    pub fn new(data_dir: String) -> (m: SkillManager)
        ensures
            m.data_dir == data_dir,
    {
        SkillManager { data_dir }
    }

    /// The skills below `/var/lib/zerg-swarm`.
    pub fn default_location() -> (m: SkillManager)
        ensures
            m.data_dir@ == "/var/lib/zerg-swarm"@,
    {
        SkillManager { data_dir: "/var/lib/zerg-swarm".to_owned() }
    }

    /// The files of skill `skill_id`: `skills/<skill_id>` in the data directory.
    pub fn skill_dir(&self, skill_id: &str) -> (p: String)
        ensures
            p@ == path_join(path_join(self.data_dir@, "skills"@), skill_id@),
    {
        let d = join_path(self.data_dir.as_str(), "skills");
        join_path(d.as_str(), skill_id)
    }

    /// The secrets of skill `skill_id`: `secrets/<skill_id>` in the data
    /// directory.
    pub fn secrets_dir(&self, skill_id: &str) -> (p: String)
        ensures
            p@ == path_join(path_join(self.data_dir@, "secrets"@), skill_id@),
    {
        let d = join_path(self.data_dir.as_str(), "secrets");
        join_path(d.as_str(), skill_id)
    }

    /// Whether agent `caller_agent` may run `skill`: its owner, or one it was
    /// granted to.
    pub fn check_authorization(&self, skill: &Skill, caller_agent: &str) -> (b: bool)
        ensures
            b == may_invoke(skill.owner_agent@, names_of(skill.allowed_agents@), caller_agent@),
    {
        check_skill_authorization(skill, caller_agent)
    }

    /// The command that runs `skill` on the host on `input_json`, with its
    /// secrets (file name and content) in the environment:
    /// `nix-shell --pure <skill dir> --run "<run line>"`.
    pub fn invoke_command(&self, skill: &Skill, input_json: &str, secrets: &Vec<(String, String)>) -> (c: ScriptCommand)
        ensures
            c.program@ == "nix-shell"@,
            strs(c.args@) == seq![
                "--pure"@,
                path_join(path_join(self.data_dir@, "skills"@), skill.id@),
                "--run"@,
                skill_run_line(skill.entrypoint@, skill.id@, input_json@)
            ],
            env_view(c.env@) == skill_env(env_view(secrets@), skill.id@, input_json@),
    {
        let mut args: Vec<String> = Vec::new();
        args.push("--pure".to_owned());
        args.push(self.skill_dir(skill.id.as_str()));
        args.push("--run".to_owned());
        let esc = escape_single_quotes(input_json);
        let mut line: Vec<char> = Vec::new();
        push_str(&mut line, skill.entrypoint.as_str());
        push_str(&mut line, " '");
        push_str(&mut line, skill.id.as_str());
        push_str(&mut line, "' '");
        push_str(&mut line, esc.as_str());
        push_str(&mut line, "'");
        assert(line@ =~= skill_run_line(skill.entrypoint@, skill.id@, input_json@));
        args.push(string_of(&line));
        assert(strs(args@) =~= seq![
            "--pure"@,
            path_join(path_join(self.data_dir@, "skills"@), skill.id@),
            "--run"@,
            skill_run_line(skill.entrypoint@, skill.id@, input_json@)
        ]);
        let ghost sv = env_view(secrets@);
        let ghost named = sv.map_values(|p: (Seq<char>, Seq<char>)| (secret_env_name(p.0), p.1));
        let mut env: Vec<(String, String)> = Vec::new();
        let mut i: usize = 0;
        while i < secrets.len()
            invariant
                i <= secrets@.len(),
                sv == env_view(secrets@),
                named == sv.map_values(|p: (Seq<char>, Seq<char>)| (secret_env_name(p.0), p.1)),
                env_view(env@) == named.take(i as int),
            decreases secrets@.len() - i,
        {
            let k = secret_env_key(secrets[i].0.as_str());
            let v = secrets[i].1.clone();
            let ghost prev = env@;
            let p = (k, v);
            env.push(p);
            proof {
                lemma_env_push(prev, p);
                assert(sv[i as int] == (secrets@[i as int].0@, secrets@[i as int].1@));
                assert(named.take(i + 1) =~= named.take(i as int).push(named[i as int]));
            }
            i = i + 1;
        }
        assert(named.take(secrets@.len() as int) =~= named);
        env.push(("SKILL_ID".to_owned(), skill.id.clone()));
        env.push(("SKILL_INPUT".to_owned(), input_json.to_owned()));
        assert(env_view(env@) =~= skill_env(sv, skill.id@, input_json@));
        ScriptCommand { program: "nix-shell".to_owned(), args, env }
    }
}

/// What a request to run a skill comes to: a refusal and its message, an
/// answer given at once, or a command to run on the host.
pub enum SkillRun {
    Refused(String),
    Answered(InvokeSkillResponse),
    Run(ScriptCommand),
}

impl SkillManager {
    /// What `caller` asking to run skill `id` on `input_json` comes to: the
    /// refusal `admit_skill_run` gives; for an agent-side script the answer
    /// that the manager does not run such scripts; for a host script the
    /// command that runs it with the skill's `secrets`.
    pub fn plan_skill_run(
        &self,
        state: &State,
        id: &str,
        caller: &str,
        input_json: &str,
        secrets: &Vec<(String, String)>,
    ) -> (r: SkillRun)
        requires
            state.wf(),
        ensures
            !state.skills@.contains_key(id@) ==> (r matches SkillRun::Refused(m) && m@ == "Skill '"@ + id@ + "' not found"@),
            state.skills@.contains_key(id@) ==> {
                let s = state.skills@[id@];
                let allowed = may_invoke(s.owner_agent@, names_of(s.allowed_agents@), caller@);
                &&& !allowed ==> (r matches SkillRun::Refused(m) && m@ == "Agent '"@ + caller@
                    + "' is not authorized to invoke this skill"@)
                &&& allowed && !s.enabled ==> (r matches SkillRun::Refused(m) && m@ == "Skill is disabled"@)
                &&& allowed && s.enabled && s.skill_type == SkillType::AgentScript ==> (r matches SkillRun::Answered(a) && {
                    &&& !a.success
                    &&& a.output is None
                    &&& a.error matches Some(e) && e@ == agent_script_message()
                })
                &&& allowed && s.enabled && s.skill_type == SkillType::HostScript ==> (r matches SkillRun::Run(c) && {
                    &&& c.program@ == "nix-shell"@
                    &&& strs(c.args@) == seq![
                        "--pure"@,
                        path_join(path_join(self.data_dir@, "skills"@), s.id@),
                        "--run"@,
                        skill_run_line(s.entrypoint@, s.id@, input_json@)
                    ]
                    &&& env_view(c.env@) == skill_env(env_view(secrets@), s.id@, input_json@)
                })
            },
    {
        match admit_skill_run(state, id, caller) {
            Err(m) => SkillRun::Refused(m),
            Ok(SkillType::AgentScript) => SkillRun::Answered(agent_script_outcome()),
            Ok(SkillType::HostScript) => match state.skills.get(id) {
                Some(skill) => SkillRun::Run(self.invoke_command(skill, input_json, secrets)),
                None => SkillRun::Refused(concat3("Skill '", id, "' not found")),
            },
        }
    }
}

/// The answer to a request to run an agent-side script.
pub open spec fn agent_script_message() -> Seq<char> {
    "AgentScript execution requires openzerg agent support. Please ensure the agent is running with skill execution enabled."@
}

/// What a request to run an agent-side script is answered: such scripts
/// need the agents' own support, so the manager does not run them.
pub fn agent_script_outcome() -> (r: InvokeSkillResponse)
    ensures
        !r.success,
        r.output is None,
        r.error matches Some(e) && e@ == agent_script_message(),
{
    InvokeSkillResponse {
        success: false,
        output: None,
        error: Some("AgentScript execution requires openzerg agent support. Please ensure the agent is running with skill execution enabled.".to_owned()),
    }
}

} // verus!
