//! Bearer authentication of the management API: the administrator's token,
//! or the internal token of one of the agents.

use std::sync::Arc;
use vstd::prelude::*;
use crate::models::{CallerIdentity, State};
use crate::state::StateManager;
use crate::text::{chars_of, has_prefix, str_eq, substring};

verus! {

/// What the authentication of requests needs: where the state is kept.
pub struct AuthState {
    pub state_manager: Arc<StateManager>,
}

/// The caller a request was authenticated as.
pub struct AuthenticatedCaller(pub CallerIdentity);

/// The token a `Bearer` authorization header carries.
pub open spec fn bearer_token(header: Seq<char>) -> Option<Seq<char>> {
    if header.len() >= 7 && header.take(7) == "Bearer "@ {
        Some(header.skip(7))
    } else {
        None
    }
}

/// The first of the first `n` agents whose internal token is `token`.
pub open spec fn agent_with_token(es: Seq<(Seq<char>, crate::models::Agent)>, token: Seq<char>, i: int) -> Option<int>
    decreases es.len() - i,
{
    if i < 0 || i >= es.len() {
        None
    } else if es[i].1.internal_token@ == token {
        Some(i)
    } else {
        agent_with_token(es, token, i + 1)
    }
}

/// Whether `c` is who `token` identifies in `state`: the administrator
/// where it is the administrator's token, else the first agent (in the order
/// of the agents table) whose internal token it is, else no one.
pub open spec fn identifies(state: State, token: Seq<char>, c: Option<CallerIdentity>) -> bool {
    if state.admin_token matches Some(a) && a@ == token {
        c matches Some(CallerIdentity::Admin)
    } else {
        match agent_with_token(state.agents.entries_view(), token, 0) {
            Some(i) => c matches Some(CallerIdentity::Agent(n)) && n@ == state.agents.entries_view()[i].0,
            None => c is None,
        }
    }
}

/// The token of a `Bearer` authorization header.
pub fn extract_token_from_header(header: Option<&str>) -> (t: Option<String>)
    ensures
        match header {
            None => t is None,
            Some(h) => match (t, bearer_token(h@)) {
                (Some(x), Some(y)) => x@ == y,
                (None, None) => true,
                _ => false,
            },
        },
{
    match header {
        None => None,
        Some(h) => {
            let hv = chars_of(h);
            proof {
                reveal_strlit("Bearer ");
            }
            if !has_prefix(&hv, "Bearer ") {
                return None;
            }
            let t = substring(&hv, 7, hv.len());
            assert(t@ =~= h@.skip(7));
            Some(t)
        },
    }
}

/// Who `token` identifies in `state`.
#[verifier::loop_isolation(false)]
pub fn authenticate(state: &State, token: &str) -> (c: Option<CallerIdentity>)
    ensures
        identifies(*state, token@, c),
{
    match &state.admin_token {
        Some(a) => {
            if str_eq(a.as_str(), token) {
                return Some(CallerIdentity::Admin);
            }
        },
        None => {},
    }
    let n = state.agents.len();
    let ghost es = state.agents.entries_view();
    let mut i: usize = 0;
    while i < n
        invariant
            i <= n,
            n == es.len(),
            es == state.agents.entries_view(),
            agent_with_token(es, token@, 0) == agent_with_token(es, token@, i as int),
        decreases n - i,
    {
        if str_eq(state.agents.value_at(i).internal_token.as_str(), token) {
            return Some(CallerIdentity::Agent(state.agents.key_at(i).clone()));
        }
        i = i + 1;
    }
    None
}

/// Who a request with authorization header `header` comes from: no one
/// (answered 401) without a `Bearer` header or with a token that identifies
/// no one.
pub fn authorize_request(state: &State, header: Option<&str>) -> (r: Result<CallerIdentity, u16>)
    ensures
        match header {
            None => r == Err::<CallerIdentity, u16>(401),
            Some(h) => match bearer_token(h@) {
                None => r == Err::<CallerIdentity, u16>(401),
                Some(t) => match r {
                    Ok(c) => identifies(*state, t, Some(c)),
                    Err(code) => code == 401 && identifies(*state, t, None),
                },
            },
        },
{
    match extract_token_from_header(header) {
        None => Err(401),
        Some(t) => match authenticate(state, t.as_str()) {
            Some(c) => Ok(c),
            None => Err(401),
        },
    }
}

/// Where the search for an agent's token lands, if anywhere: on an agent
/// with that token, past agents without it.
proof fn lemma_agent_with_token(es: Seq<(Seq<char>, crate::models::Agent)>, token: Seq<char>, i: int)
    requires
        0 <= i,
    ensures
        agent_with_token(es, token, i) matches Some(j) ==> i <= j < es.len() && es[j].1.internal_token@ == token,
        agent_with_token(es, token, i) is None ==> forall|k: int| i <= k < es.len() ==> (#[trigger] es[k]).1.internal_token@ != token,
    decreases es.len() - i,
{
    if i < es.len() {
        lemma_agent_with_token(es, token, i + 1);
    }
}

/// A `Bearer` header carries the token written after `Bearer `.
pub proof fn law_bearer_header_carries_its_token(token: Seq<char>)
    ensures
        bearer_token("Bearer "@ + token) == Some(token),
{
    reveal_strlit("Bearer ");
    assert(("Bearer "@ + token).take(7) =~= "Bearer "@);
    assert(("Bearer "@ + token).skip(7) =~= token);
}

/// The administrator's token identifies the administrator; otherwise a token
/// identifies an agent of the state whose internal token it is, whenever
/// there is one, and no one when no agent has it.
pub proof fn law_tokens_identify_their_holders(state: State, token: Seq<char>, c: Option<CallerIdentity>)
    requires
        state.agents.wf(),
        identifies(state, token, c),
    ensures
        (state.admin_token matches Some(a) && a@ == token) ==> c matches Some(CallerIdentity::Admin),
        c matches Some(CallerIdentity::Admin) ==> (state.admin_token matches Some(a) && a@ == token),
        c matches Some(CallerIdentity::Agent(n)) ==> state.agents@.contains_key(n@) && state.agents@[n@].internal_token@
            == token,
        (!(state.admin_token matches Some(a) && a@ == token) && exists|k: Seq<char>|
            state.agents@.contains_key(k) && (#[trigger] state.agents@[k]).internal_token@ == token) ==> c matches Some(
            CallerIdentity::Agent(_),
        ),
        c is None ==> forall|k: Seq<char>| #[trigger] state.agents@.contains_key(k) ==> state.agents@[k].internal_token@ != token,
{
    let es = state.agents.entries_view();
    lemma_agent_with_token(es, token, 0);
    if !(state.admin_token matches Some(a) && a@ == token) {
        match agent_with_token(es, token, 0) {
            Some(i) => {
                state.agents.lemma_index_of(i);
                assert(state.agents.keys()[i] == es[i].0);
            },
            None => {
                assert forall|k: Seq<char>| #[trigger] state.agents@.contains_key(k) implies state.agents@[k].internal_token@
                    != token by {
                    let i = choose|i: int| 0 <= i < state.agents.keys().len() && state.agents.keys()[i] == k;
                    state.agents.lemma_index_of(i);
                    assert(state.agents@[k] == es[i].1);
                }
            },
        }
    }
}

} // verus!
