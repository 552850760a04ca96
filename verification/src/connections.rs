//! The agents' live connections to the manager: who is connected, what a
//! connecting agent must show, and what each frame of an agent's socket does.

use vstd::prelude::*;
use crate::models::{Error, State};
use crate::table::Table;
use crate::text::{concat3, str_eq};

verus! {

/// The connection of one agent.
pub struct VmConnection {
    pub agent_name: String,
    pub connected: bool,
    pub last_heartbeat: String,
}

impl View for VmConnection {
    type V = VmConnection;

    open spec fn view(&self) -> VmConnection {
        *self
    }
}

/// Whether agent `name` has a live connection.
pub open spec fn is_online(conns: Table<VmConnection>, name: Seq<char>) -> bool {
    conns@.contains_key(name) && conns@[name].connected
}

/// How many of the first `n` connections are live.
pub open spec fn count_live(es: Seq<(Seq<char>, VmConnection)>, n: int) -> nat
    decreases n,
{
    if n <= 0 {
        0
    } else {
        count_live(es, n - 1) + if es[n - 1].1.connected {
            1nat
        } else {
            0nat
        }
    }
}

proof fn lemma_count_live_bound(es: Seq<(Seq<char>, VmConnection)>, n: int)
    ensures
        count_live(es, n) <= if n < 0 { 0 } else { n },
    decreases n,
{
    if n > 0 {
        lemma_count_live_bound(es, n - 1);
    }
}

/// Whether agent `name` is connected.
pub fn online(conns: &Table<VmConnection>, name: &str) -> (b: bool)
    requires
        conns.wf(),
    ensures
        b == is_online(*conns, name@),
{
    match conns.get(name) {
        Some(c) => c.connected,
        None => false,
    }
}

/// Counting the first `n` connections one by one gives the number of the
/// first `n` names whose agent is online.
proof fn lemma_count_live_filter(conns: Table<VmConnection>, n: int)
    requires
        conns.wf(),
        0 <= n <= conns.count(),
    ensures
        count_live(conns.entries_view(), n) == conns.keys().take(n).filter(|k: Seq<char>| is_online(conns, k)).len(),
    decreases n,
{
    if n > 0 {
        lemma_count_live_filter(conns, n - 1);
        let ks = conns.keys().take(n);
        assert(ks.drop_last() =~= conns.keys().take(n - 1));
        conns.lemma_index_of(n - 1);
        let es = conns.entries_view();
        let k = conns.keys()[n - 1];
        assert(k == es[n - 1].0);
        assert(conns@.contains_key(k));
        assert(conns@[k] == es[n - 1].1);
        assert(is_online(conns, k) == es[n - 1].1.connected);
        assert(ks.last() == k);
        let f = |x: Seq<char>| is_online(conns, x);
        assert(conns.keys().len() == conns.count());
        assert(ks.len() == n);
        reveal_with_fuel(Seq::filter, 1);
        assert(ks.filter(f).len() == ks.drop_last().filter(f).len() + if f(k) { 1int } else { 0int });
    }
}

/// The number of connected agents is the number of names in the registry
/// whose agent is online: live connections count, connections marked
/// disconnected do not.
pub proof fn law_online_count_is_live_connections(conns: Table<VmConnection>)
    requires
        conns.wf(),
    ensures
        count_live(conns.entries_view(), conns.entries_view().len() as int)
            == conns.keys().filter(|k: Seq<char>| is_online(conns, k)).len(),
        count_live(conns.entries_view(), conns.entries_view().len() as int) <= conns.count(),
{
    lemma_count_live_filter(conns, conns.count() as int);
    assert(conns.keys().take(conns.count() as int) =~= conns.keys());
    lemma_count_live_bound(conns.entries_view(), conns.count() as int);
}

/// How many agents are connected.
pub fn online_count(conns: &Table<VmConnection>) -> (n: usize)
    ensures
        n == count_live(conns.entries_view(), conns.entries_view().len() as int),
        conns.wf() ==> n == conns.keys().filter(|k: Seq<char>| is_online(*conns, k)).len(),
{
    proof {
        if conns.wf() {
            law_online_count_is_live_connections(*conns);
        }
    }
    let len = conns.len();
    let ghost es = conns.entries_view();
    let mut n: usize = 0;
    let mut i: usize = 0;
    while i < len
        invariant
            i <= len,
            len == es.len(),
            es == conns.entries_view(),
            n == count_live(es, i as int),
        decreases len - i,
    {
        proof {
            lemma_count_live_bound(es, i as int);
        }
        if conns.value_at(i).connected {
            n = n + 1;
        }
        i = i + 1;
    }
    n
}

/// Registers agent `agent_name` as connected at `now`, once it has shown the
/// token the state holds for it.
pub fn vm_connect(conns: &mut Table<VmConnection>, state: &State, agent_name: &str, internal_token: &str, now: String) -> (r: Result<String, Error>)
    requires
        old(conns).wf(),
        state.wf(),
    ensures
        final(conns).wf(),
        !state.agents@.contains_key(agent_name@) ==> (r matches Err(Error::AgentNotFound(n)) && n@ == agent_name@
            && *final(conns) == *old(conns)),
        state.agents@.contains_key(agent_name@) && state.agents@[agent_name@].internal_token@ != internal_token@ ==> (r
            matches Err(Error::InvalidToken) && *final(conns) == *old(conns)),
        state.agents@.contains_key(agent_name@) && state.agents@[agent_name@].internal_token@ == internal_token@ ==> {
            &&& r matches Ok(n) && n@ == agent_name@
            &&& final(conns)@.contains_key(agent_name@)
            &&& final(conns)@[agent_name@].agent_name@ == agent_name@
            &&& final(conns)@[agent_name@].connected
            &&& final(conns)@[agent_name@].last_heartbeat@ == now@
            &&& final(conns)@.remove(agent_name@) == old(conns)@.remove(agent_name@)
        },
{
    match state.agents.get(agent_name) {
        None => Err(Error::AgentNotFound(agent_name.to_owned())),
        Some(a) => {
            if !str_eq(a.internal_token.as_str(), internal_token) {
                return Err(Error::InvalidToken);
            }
            let c = VmConnection { agent_name: agent_name.to_owned(), connected: true, last_heartbeat: now };
            conns.insert(agent_name.to_owned(), c);
            proof {
                assert(conns@.remove(agent_name@) =~= old(conns)@.remove(agent_name@));
            }
            Ok(agent_name.to_owned())
        },
    }
}

/// Records a heartbeat of agent `agent_name` at `now`: a known connection is
/// live again; an unknown agent changes nothing.
pub fn vm_heartbeat(conns: &mut Table<VmConnection>, agent_name: &str, now: String)
    requires
        old(conns).wf(),
    ensures
        final(conns).wf(),
        !old(conns)@.contains_key(agent_name@) ==> *final(conns) == *old(conns),
        old(conns)@.contains_key(agent_name@) ==> final(conns)@ == old(conns)@.insert(
            agent_name@,
            VmConnection {
                agent_name: old(conns)@[agent_name@].agent_name,
                connected: true,
                last_heartbeat: now,
            },
        ),
{
    match conns.remove_entry(agent_name) {
        None => {},
        Some((i, k, c)) => {
            let c2 = VmConnection { agent_name: c.agent_name, connected: true, last_heartbeat: now };
            let ghost c2v = c2;
            conns.insert_at(i, k, c2);
            proof {
                assert(old(conns).keys().remove(i as int).insert(i as int, agent_name@) =~= old(conns).keys()) by {
                    old(conns).lemma_index_of(i as int);
                }
            }
        },
    }
}

/// Marks agent `agent_name` as disconnected; an unknown agent changes nothing.
pub fn vm_disconnect(conns: &mut Table<VmConnection>, agent_name: &str)
    requires
        old(conns).wf(),
    ensures
        final(conns).wf(),
        !old(conns)@.contains_key(agent_name@) ==> *final(conns) == *old(conns),
        old(conns)@.contains_key(agent_name@) ==> final(conns)@ == old(conns)@.insert(
            agent_name@,
            VmConnection {
                agent_name: old(conns)@[agent_name@].agent_name,
                connected: false,
                last_heartbeat: old(conns)@[agent_name@].last_heartbeat,
            },
        ),
{
    match conns.remove_entry(agent_name) {
        None => {},
        Some((i, k, c)) => {
            let c2 = VmConnection { agent_name: c.agent_name, connected: false, last_heartbeat: c.last_heartbeat };
            conns.insert_at(i, k, c2);
            proof {
                assert(old(conns).keys().remove(i as int).insert(i as int, agent_name@) =~= old(conns).keys()) by {
                    old(conns).lemma_index_of(i as int);
                }
            }
        },
    }
}

/// Whether a request may be forwarded to agent `agent_name`: it must have a
/// connection, and the connection must be live.
pub fn check_forward(conns: &Table<VmConnection>, agent_name: &str) -> (r: Result<(), Error>)
    requires
        conns.wf(),
    ensures
        !conns@.contains_key(agent_name@) ==> (r matches Err(Error::NotFound(m)) && m@ == "Agent "@ + agent_name@
            + " not connected"@),
        conns@.contains_key(agent_name@) && !conns@[agent_name@].connected ==> (r matches Err(Error::ConnectionLost(m))
            && m@ == "Agent "@ + agent_name@ + " is not connected"@),
        is_online(*conns, agent_name@) ==> r is Ok,
{
    match conns.get(agent_name) {
        None => Err(Error::NotFound(concat3("Agent ", agent_name, " not connected"))),
        Some(c) => {
            if !c.connected {
                Err(Error::ConnectionLost(concat3("Agent ", agent_name, " is not connected")))
            } else {
                Ok(())
            }
        },
    }
}

/// What arrived on an agent's socket.
pub enum VmFrame {
    /// A message announcing the agent, with its token.
    Connect { agent_name: String, internal_token: String },
    /// A message saying the agent is alive.
    Heartbeat { agent_name: String },
    /// A message reporting the agent's status.
    StatusReport { agent_name: String },
    /// Another message.
    OtherMessage,
    /// Text that is no message.
    Unreadable,
    /// The socket is being closed.
    Close,
    /// A ping.
    Ping,
    /// The socket failed.
    Failed,
    /// Another frame.
    Other,
}

/// What to do after a frame.
#[derive(Debug)]
pub enum VmReaction {
    /// Read the next frame.
    Continue,
    /// Announce that agent connected, then read on.
    Connected(String),
    /// Pass on the status report of that agent, then read on.
    Status(String),
    /// Answer with a pong, then read on.
    Pong,
    /// Send a close frame and stop reading.
    CloseAndStop,
    /// Stop reading.
    Stop,
}

/// One agent's socket: the agent it has announced itself as, if any.
pub struct VmSession {
    pub agent_name: Option<String>,
}

impl VmSession {
    /// A socket on which no agent has announced itself yet.
    pub fn new() -> (s: VmSession)
        ensures
            s.agent_name is None,
    {
        VmSession { agent_name: None }
    }

    /// Handles one frame, received at `now`: a connect registers the agent
    /// (refused, it closes the socket), a heartbeat refreshes its connection,
    /// a close or a failure ends the session, a ping is answered.
    pub fn on_frame(&mut self, conns: &mut Table<VmConnection>, state: &State, frame: VmFrame, now: String) -> (r: VmReaction)
        requires
            old(conns).wf(),
            state.wf(),
        ensures
            final(conns).wf(),
            match frame {
                VmFrame::Connect { agent_name, internal_token } => {
                    if state.agents@.contains_key(agent_name@) && state.agents@[agent_name@].internal_token@
                        == internal_token@ {
                        &&& r matches VmReaction::Connected(n) && n@ == agent_name@
                        &&& final(self).agent_name matches Some(n) && n@ == agent_name@
                        &&& is_online(*final(conns), agent_name@)
                        &&& final(conns)@[agent_name@].last_heartbeat@ == now@
                        &&& final(conns)@.remove(agent_name@) == old(conns)@.remove(agent_name@)
                    } else {
                        &&& r is CloseAndStop
                        &&& *final(self) == *old(self)
                        &&& *final(conns) == *old(conns)
                    }
                },
                VmFrame::Heartbeat { agent_name } => {
                    &&& r is Continue
                    &&& *final(self) == *old(self)
                    &&& !old(conns)@.contains_key(agent_name@) ==> *final(conns) == *old(conns)
                    &&& old(conns)@.contains_key(agent_name@) ==> final(conns)@ == old(conns)@.insert(
                        agent_name@,
                        VmConnection {
                            agent_name: old(conns)@[agent_name@].agent_name,
                            connected: true,
                            last_heartbeat: now,
                        },
                    )
                },
                VmFrame::StatusReport { agent_name } => {
                    &&& r matches VmReaction::Status(n) && n@ == agent_name@
                    &&& *final(self) == *old(self)
                    &&& *final(conns) == *old(conns)
                },
                VmFrame::Close => r is Stop && *final(self) == *old(self) && *final(conns) == *old(conns),
                VmFrame::Failed => r is Stop && *final(self) == *old(self) && *final(conns) == *old(conns),
                VmFrame::Ping => r is Pong && *final(self) == *old(self) && *final(conns) == *old(conns),
                _ => r is Continue && *final(self) == *old(self) && *final(conns) == *old(conns),
            },
    {
        match frame {
            VmFrame::Connect { agent_name, internal_token } => {
                match vm_connect(conns, state, agent_name.as_str(), internal_token.as_str(), now) {
                    Ok(n) => {
                        let announced = n.clone();
                        self.agent_name = Some(n);
                        VmReaction::Connected(announced)
                    },
                    Err(_) => VmReaction::CloseAndStop,
                }
            },
            VmFrame::Heartbeat { agent_name } => {
                vm_heartbeat(conns, agent_name.as_str(), now);
                VmReaction::Continue
            },
            VmFrame::StatusReport { agent_name } => VmReaction::Status(agent_name),
            VmFrame::Close => VmReaction::Stop,
            VmFrame::Failed => VmReaction::Stop,
            VmFrame::Ping => VmReaction::Pong,
            _ => VmReaction::Continue,
        }
    }

    /// Ends the session: the connection of the agent it announced, if any,
    /// is removed, and the agent is handed back to be announced as gone.
    pub fn finish(self, conns: &mut Table<VmConnection>) -> (r: Option<String>)
        requires
            old(conns).wf(),
        ensures
            final(conns).wf(),
            r == self.agent_name,
            match self.agent_name {
                None => *final(conns) == *old(conns),
                Some(n) => final(conns)@ == old(conns)@.remove(n@),
            },
    {
        match self.agent_name {
            None => None,
            Some(n) => {
                conns.remove(n.as_str());
                Some(n)
            },
        }
    }
}

/// Whether `after` is what a session that announced agent `name` and then
/// ended leaves of a registry: its connection is gone and the others are as
/// they were.
pub open spec fn ended_removed(before: Table<VmConnection>, after: Table<VmConnection>, name: Seq<char>) -> bool {
    after@ == before@.remove(name)
}

/// An agent that connected with its token is online, and once its session
/// ends its connection is gone, the other connections being as they were
/// before it connected.
pub proof fn law_session_end_removes_connection(
    c0: Table<VmConnection>,
    c1: Table<VmConnection>,
    c2: Table<VmConnection>,
    name: Seq<char>,
)
    requires
        is_online(c1, name),
        c1@.remove(name) == c0@.remove(name),
        ended_removed(c1, c2, name),
    ensures
        !c2@.contains_key(name),
        !is_online(c2, name),
        c2@ == c0@.remove(name),
{
}

} // verus!
