//! The agent's slice of state: its chain and the history of action responses,
//! with the reducers that evolve it.

use crate::action::{Action, ActionWrapper};
use crate::chain::{find_by_entry, next_pair, opt_pair_view, stored, Chain, ChainV};
use crate::error::{error_json, ErrorV, HolochainError};
use crate::pair::{pair_json, pair_key, Pair, PairV};
use std::sync::Arc;
use vstd::prelude::*;

verus! {

/// The agent's key material.
#[derive(Debug)]
pub struct Keys {
    pub public_key: String,
    pub private_key: String,
    pub node_id: String,
}

impl Clone for Keys {
    fn clone(&self) -> (r: Self)
        ensures
            r == *self,
    {
        Keys {
            public_key: self.public_key.clone(),
            private_key: self.private_key.clone(),
            node_id: self.node_id.clone(),
        }
    }
}

/// The agent's response to an action, kept in its history.
#[derive(Debug)]
pub enum ActionResponse {
    Commit(Result<Pair, HolochainError>),
    GetEntry(Option<Pair>),
}

/// The mathematical value of a response.
pub ghost enum ActionResponseV {
    Commit(Result<PairV, ErrorV>),
    GetEntry(Option<PairV>),
}

impl View for ActionResponse {
    type V = ActionResponseV;

    open spec fn view(&self) -> ActionResponseV {
        match self {
            ActionResponse::Commit(Ok(p)) => ActionResponseV::Commit(Ok(p@)),
            ActionResponse::Commit(Err(e)) => ActionResponseV::Commit(Err(e@)),
            ActionResponse::GetEntry(o) => ActionResponseV::GetEntry(opt_pair_view(*o)),
        }
    }
}

/// The JSON form of a response: the committed pair's key, the error, the pair found, or
/// nothing.
pub open spec fn response_json(r: ActionResponseV) -> Seq<char> {
    match r {
        ActionResponseV::Commit(Ok(p)) => "{\"hash\":\""@ + pair_key(p) + "\"}"@,
        ActionResponseV::Commit(Err(e)) => error_json(e),
        ActionResponseV::GetEntry(Some(p)) => pair_json(p),
        ActionResponseV::GetEntry(None) => Seq::empty(),
    }
}

fn copy_result(r: &Result<Pair, HolochainError>) -> (c: Result<Pair, HolochainError>)
    ensures
        ActionResponse::Commit(c)@ == ActionResponse::Commit(*r)@,
{
    match r {
        Ok(p) => Ok(p.clone()),
        Err(e) => Err(e.clone()),
    }
}

fn copy_opt_pair(o: &Option<Pair>) -> (c: Option<Pair>)
    ensures
        opt_pair_view(c) == opt_pair_view(*o),
{
    match o {
        Some(p) => Some(p.clone()),
        None => None,
    }
}

impl ActionResponse {
    /// The JSON form of the response.
    pub fn to_json(&self) -> (r: String)
        ensures
            r@ == response_json(self@),
    {
        match self {
            ActionResponse::Commit(Ok(p)) => {
                let mut out = String::from_str("{\"hash\":\"");
                out.append(p.key().as_str());
                out.append("\"}");
                out
            },
            ActionResponse::Commit(Err(e)) => e.to_json(),
            ActionResponse::GetEntry(Some(p)) => p.to_json(),
            ActionResponse::GetEntry(None) => {
                let r = String::new();
                r
            },
        }
    }
}

impl Clone for ActionResponse {
    fn clone(&self) -> (r: Self)
        ensures
            r@ == self@,
    {
        match self {
            ActionResponse::Commit(res) => ActionResponse::Commit(copy_result(res)),
            ActionResponse::GetEntry(o) => ActionResponse::GetEntry(copy_opt_pair(o)),
        }
    }
}

impl PartialEq for ActionResponse {
    fn eq(&self, other: &ActionResponse) -> (r: bool)
        ensures
            r == (self@ == other@),
    {
        match self {
            ActionResponse::Commit(Ok(a)) => match other {
                ActionResponse::Commit(Ok(b)) => a.eq(b),
                _ => false,
            },
            ActionResponse::Commit(Err(a)) => match other {
                ActionResponse::Commit(Err(b)) => a.eq(b),
                _ => false,
            },
            ActionResponse::GetEntry(Some(a)) => match other {
                ActionResponse::GetEntry(Some(b)) => a.eq(b),
                _ => false,
            },
            ActionResponse::GetEntry(None) => match other {
                ActionResponse::GetEntry(None) => true,
                _ => false,
            },
        }
    }
}

impl vstd::std_specs::cmp::PartialEqSpecImpl for ActionResponse {
    open spec fn obeys_eq_spec() -> bool {
        true
    }

    open spec fn eq_spec(&self, other: &ActionResponse) -> bool {
        self@ == other@
    }
}

/// The mathematical value of the agent's state.
pub ghost struct AgentStateV {
    pub keys: Option<Keys>,
    /// The responses, oldest first, each under the token of its action.
    pub actions: Seq<(u64, ActionResponseV)>,
    pub chain: ChainV,
}

/// The latest response recorded under token `id`.
pub open spec fn response_for(s: Seq<(u64, ActionResponseV)>, id: u64) -> Option<ActionResponseV>
    decreases s.len(),
{
    if s.len() == 0 {
        None
    } else if s.last().0 == id {
        Some(s.last().1)
    } else {
        response_for(s.drop_last(), id)
    }
}

/// The state after `aw` was reduced on the agent's slice.
pub open spec fn agent_reduced(old: AgentStateV, aw: ActionWrapper) -> AgentStateV {
    match aw.spec_action() {
        Action::Commit(e) => {
            let p = next_pair(old.chain.pairs, e@);
            AgentStateV {
                keys: old.keys,
                actions: old.actions.push((aw.spec_id(), ActionResponseV::Commit(Ok(p)))),
                chain: ChainV { pairs: old.chain.pairs.push(p), table: stored(old.chain.table, p) },
            }
        },
        Action::GetEntry(k) => AgentStateV {
            keys: old.keys,
            actions: old.actions.push(
                (aw.spec_id(), ActionResponseV::GetEntry(find_by_entry(old.chain.pairs, k@))),
            ),
            chain: old.chain,
        },
        _ => old,
    }
}

/// The internal state of an agent, as reducers and observers see it.
#[derive(Debug)]
pub struct AgentState {
    keys: Option<Keys>,
    actions: Vec<(u64, ActionResponse)>,
    chain: Chain,
}

/// The views of the recorded responses.
pub open spec fn responses_view(v: Seq<(u64, ActionResponse)>) -> Seq<(u64, ActionResponseV)> {
    v.map_values(|x: (u64, ActionResponse)| (x.0, x.1@))
}

impl View for AgentState {
    type V = AgentStateV;

    closed spec fn view(&self) -> AgentStateV {
        AgentStateV { keys: self.keys, actions: responses_view(self.actions@), chain: self.chain@ }
    }
}

fn copy_responses(v: &Vec<(u64, ActionResponse)>) -> (r: Vec<(u64, ActionResponse)>)
    ensures
        responses_view(r@) == responses_view(v@),
{
    let mut out: Vec<(u64, ActionResponse)> = Vec::new();
    let mut i: usize = 0;
    while i < v.len()
        invariant
            i <= v@.len(),
            out@.len() == i,
            forall|k: int| 0 <= k < i ==> #[trigger] out@[k].0 == v@[k].0 && out@[k].1@ == v@[k].1@,
        decreases v@.len() - i,
    {
        let (id, resp) = &v[i];
        out.push((*id, resp.clone()));
        i = i + 1;
    }
    assert(responses_view(out@) =~= responses_view(v@));
    out
}

/// Which reducer of the agent's slice an action goes to.
#[derive(Debug, Clone, Copy, PartialEq, Eq, Structural)]
pub enum AgentReduceFn {
    Commit,
    Get,
}

/// The reducer of the agent's slice for `aw`, if it has one.
pub fn resolve_reducer(aw: &ActionWrapper) -> (r: Option<AgentReduceFn>)
    ensures
        r == match aw.spec_action() {
            Action::Commit(_) => Some(AgentReduceFn::Commit),
            Action::GetEntry(_) => Some(AgentReduceFn::Get),
            _ => None::<AgentReduceFn>,
        },
{
    match aw.action() {
        Action::Commit(_) => Some(AgentReduceFn::Commit),
        Action::GetEntry(_) => Some(AgentReduceFn::Get),
        _ => None,
    }
}

/// Commits the entry of a commit action and records the result under the action's token;
/// any other action leaves the state as it was.
pub fn reduce_commit(state: &mut AgentState, aw: &ActionWrapper)
    requires
        old(state).wf(),
    ensures
        final(state).wf(),
        aw.spec_action() is Commit ==> final(state)@ == agent_reduced(old(state)@, *aw),
        !(aw.spec_action() is Commit) ==> final(state)@ == old(state)@,
{
    if let Action::Commit(entry) = aw.action() {
        let result = state.chain.commit_entry(entry);
        state.actions.push((aw.id(), ActionResponse::Commit(result)));
        assert(state@.actions =~= old(state)@.actions.push(
            (aw.spec_id(), ActionResponseV::Commit(Ok(next_pair(old(state)@.chain.pairs, entry@)))),
        ));
    }
}

/// Looks up the entry of a get action and records the pair found under the action's token;
/// any other action leaves the state as it was.
pub fn reduce_get(state: &mut AgentState, aw: &ActionWrapper)
    requires
        old(state).wf(),
    ensures
        final(state).wf(),
        aw.spec_action() is GetEntry ==> final(state)@ == agent_reduced(old(state)@, *aw),
        !(aw.spec_action() is GetEntry) ==> final(state)@ == old(state)@,
{
    if let Action::GetEntry(key) = aw.action() {
        let found = state.chain.entry_pair(key.as_str());
        state.actions.push((aw.id(), ActionResponse::GetEntry(found)));
        assert(state@.actions =~= old(state)@.actions.push(
            (aw.spec_id(), ActionResponseV::GetEntry(find_by_entry(old(state)@.chain.pairs, key@))),
        ));
    }
}

/// Reduces the agent's state by `aw`. An action that the slice does not handle gives back the
/// same shared snapshot; one that it handles gives a fresh snapshot, built on a copy, so that
/// holders of the old one never see a change.
pub fn reduce(old_state: Arc<AgentState>, aw: &ActionWrapper) -> (r: Arc<AgentState>)
    requires
        old_state.wf(),
    ensures
        r.wf(),
        r@ == agent_reduced(old_state@, *aw),
{
    match resolve_reducer(aw) {
        Some(f) => {
            let mut new_state = old_state.copy();
            match f {
                AgentReduceFn::Commit => reduce_commit(&mut new_state, aw),
                AgentReduceFn::Get => reduce_get(&mut new_state, aw),
            }
            Arc::new(new_state)
        },
        None => old_state,
    }
}

impl AgentState {
    /// The state invariant: the chain is linked.
    pub open spec fn wf(&self) -> bool {
        self.chain_wf()
    }

    /// The chain of the state is linked.
    pub closed spec fn chain_wf(&self) -> bool {
        self.chain.wf()
    }

    /// A state with no keys, no history and a copy of `chain`.
    pub fn new(chain: &Chain) -> (r: AgentState)
        requires
            chain.wf(),
        ensures
            r.wf(),
            r@ == (AgentStateV { keys: None, actions: Seq::empty(), chain: chain@ }),
    {
        let r = AgentState { keys: None, actions: Vec::new(), chain: chain.copy() };
        assert(r@.actions =~= Seq::<(u64, ActionResponseV)>::empty());
        r
    }

    /// A copy of the key material.
    pub fn keys(&self) -> (r: Option<Keys>)
        ensures
            r == self@.keys,
    {
        match &self.keys {
            Some(k) => Some(k.clone()),
            None => None,
        }
    }

    /// The agent's chain.
    pub fn chain(&self) -> (r: &Chain)
        ensures
            r@ == self@.chain,
            self.wf() ==> r.wf(),
    {
        &self.chain
    }

    /// A copy of the history: every response under the token of its action, oldest first.
    pub fn actions(&self) -> (r: Vec<(u64, ActionResponse)>)
        ensures
            responses_view(r@) == self@.actions,
    {
        copy_responses(&self.actions)
    }

    /// The response recorded for `aw`, if any.
    pub fn action_response(&self, aw: &ActionWrapper) -> (r: Option<ActionResponse>)
        ensures
            match r {
                Some(x) => response_for(self@.actions, aw.spec_id()) == Some(x@),
                None => response_for(self@.actions, aw.spec_id()) is None,
            },
    {
        let id = aw.id();
        let ghost s = self@.actions;
        let mut i: usize = self.actions.len();
        assert(s.subrange(0, i as int) =~= s);
        while i > 0
            invariant
                i <= self.actions@.len(),
                s == self@.actions,
                s.len() == self.actions@.len(),
                response_for(s, id) == response_for(s.subrange(0, i as int), id),
                id == aw.spec_id(),
            decreases i,
        {
            let (k, resp) = &self.actions[i - 1];
            proof {
                let sub = s.subrange(0, i as int);
                assert(s[i - 1] == (self.actions@[i - 1].0, self.actions@[i - 1].1@));
                assert(sub.last() == (*k, resp@));
                assert(sub.drop_last() =~= s.subrange(0, i - 1));
            }
            if *k == id {
                return Some(resp.clone());
            }
            i = i - 1;
        }
        None
    }

    /// A copy of the state.
    pub fn copy(&self) -> (r: AgentState)
        ensures
            r@ == self@,
            self.wf() ==> r.wf(),
    {
        AgentState { keys: self.keys(), actions: copy_responses(&self.actions), chain: self.chain.copy() }
    }
}

} // verus!
