//! The dispatcher's step: reducing the whole state by one action, and the
//! registry of callers waiting for a call's result.

use crate::action::{ActionWrapper, ZomeFnCall, ZomeFnCallV};
use crate::agent::{self, agent_reduced, AgentState, AgentStateV};
use crate::error::{ErrorV, HolochainError};
use crate::nucleus::{
    self, call_result, execution_of, nucleus_reduced, CallStatusV, ExecutionRequest, NucleusState,
    NucleusStateV,
};
use std::sync::Arc;
use vstd::prelude::*;

verus! {

/// The whole state: the agent's slice, shared as an immutable snapshot, and the nucleus slice.
#[derive(Debug)]
pub struct State {
    agent: Arc<AgentState>,
    nucleus: NucleusState,
}

impl State {
    /// The state invariant: the agent's chain is linked.
    pub open spec fn wf(&self) -> bool {
        self.spec_agent().wf()
    }

    /// The agent's slice.
    pub closed spec fn spec_agent(&self) -> AgentState {
        *self.agent
    }

    /// The nucleus slice.
    pub closed spec fn spec_nucleus(&self) -> NucleusStateV {
        self.nucleus@
    }

    /// A state of the two slices.
    pub fn new(agent: AgentState, nucleus: NucleusState) -> (r: State)
        requires
            agent.wf(),
        ensures
            r.wf(),
            r.spec_agent()@ == agent@,
            r.spec_nucleus() == nucleus@,
    {
        State { agent: Arc::new(agent), nucleus }
    }

    /// The agent's slice.
    pub fn agent(&self) -> (r: &AgentState)
        ensures
            r@ == self.spec_agent()@,
    {
        &self.agent
    }

    /// The nucleus slice.
    pub fn nucleus(&self) -> (r: &NucleusState)
        ensures
            r@ == self.spec_nucleus(),
    {
        &self.nucleus
    }

    /// Reduces every slice by `aw`, in the order the dispatcher applies them, and returns the
    /// new state with the execution that the action asks for, if any.
    pub fn reduce(self, aw: &ActionWrapper) -> (r: (State, Option<ExecutionRequest>))
        requires
            self.wf(),
        ensures
            r.0.wf(),
            r.0.spec_agent()@ == agent_reduced(self.spec_agent()@, *aw),
            r.0.spec_nucleus() == nucleus_reduced(self.spec_nucleus(), *aw),
            execution_of(r.1, self.spec_nucleus(), *aw),
    {
        let State { agent, nucleus } = self;
        let agent = agent::reduce(agent, aw);
        let mut nucleus = nucleus;
        let request = nucleus::reduce(&mut nucleus, aw);
        (State { agent, nucleus }, request)
    }
}

/// The callers still waiting after the results recorded in `calls` were delivered, in
/// registration order.
pub open spec fn still_waiting(
    s: Seq<(u64, ZomeFnCallV)>,
    calls: Seq<(ZomeFnCallV, CallStatusV)>,
) -> Seq<(u64, ZomeFnCallV)>
    decreases s.len(),
{
    if s.len() == 0 {
        Seq::empty()
    } else if call_result(calls, s.last().1) is None {
        still_waiting(s.drop_last(), calls).push(s.last())
    } else {
        still_waiting(s.drop_last(), calls)
    }
}

/// The deliveries that the results recorded in `calls` allow, in registration order: each
/// waiting caller whose call has finished, with the call's result.
pub open spec fn deliveries(
    s: Seq<(u64, ZomeFnCallV)>,
    calls: Seq<(ZomeFnCallV, CallStatusV)>,
) -> Seq<(u64, Result<Seq<char>, ErrorV>)>
    decreases s.len(),
{
    if s.len() == 0 {
        Seq::empty()
    } else {
        match call_result(calls, s.last().1) {
            Some(res) => deliveries(s.drop_last(), calls).push((s.last().0, res)),
            None => deliveries(s.drop_last(), calls),
        }
    }
}

/// The views of the registered waiters.
pub open spec fn waiters_view(v: Seq<(u64, ZomeFnCall)>) -> Seq<(u64, ZomeFnCallV)> {
    v.map_values(|x: (u64, ZomeFnCall)| (x.0, x.1@))
}

/// The views of delivered results.
pub open spec fn deliveries_view(v: Seq<(u64, Result<String, HolochainError>)>) -> Seq<
    (u64, Result<Seq<char>, ErrorV>),
> {
    v.map_values(
        |x: (u64, Result<String, HolochainError>)|
            (
                x.0,
                match x.1 {
                    Ok(j) => Ok(j@),
                    Err(e) => Err(e@),
                },
            ),
    )
}

/// The callers blocked on a call's result, each under the token of its one-shot channel. Each
/// fires once, after the action that finished its call has been fully reduced.
#[derive(Debug)]
pub struct CallWaiters {
    waiting: Vec<(u64, ZomeFnCall)>,
}

impl View for CallWaiters {
    type V = Seq<(u64, ZomeFnCallV)>;

    closed spec fn view(&self) -> Seq<(u64, ZomeFnCallV)> {
        waiters_view(self.waiting@)
    }
}

impl CallWaiters {
    /// No one waiting.
    pub fn new() -> (r: CallWaiters)
        ensures
            r@ == Seq::<(u64, ZomeFnCallV)>::empty(),
    {
        let r = CallWaiters { waiting: Vec::new() };
        assert(r@ =~= Seq::<(u64, ZomeFnCallV)>::empty());
        r
    }

    /// Registers the caller `id` as waiting for `call`, after all earlier ones.
    pub fn register(&mut self, id: u64, call: &ZomeFnCall)
        ensures
            final(self)@ == old(self)@.push((id, call@)),
    {
        self.waiting.push((id, call.clone()));
        assert(self@ =~= old(self)@.push((id, call@)));
    }

    /// Delivers the results that `nucleus` holds: every waiting caller whose call has finished
    /// is removed and returned with the result, in registration order; the others stay.
    pub fn fire(&mut self, nucleus: &NucleusState) -> (r: Vec<(u64, Result<String, HolochainError>)>)
        ensures
            final(self)@ == still_waiting(old(self)@, nucleus@.zome_calls),
            deliveries_view(r@) == deliveries(old(self)@, nucleus@.zome_calls),
    {
        let ghost s = self@;
        let ghost calls = nucleus@.zome_calls;
        let mut kept: Vec<(u64, ZomeFnCall)> = Vec::new();
        let mut out: Vec<(u64, Result<String, HolochainError>)> = Vec::new();
        let n = self.waiting.len();
        let mut i: usize = 0;
        while i < n
            invariant
                i <= n,
                n == self.waiting@.len(),
                s == self@,
                s == old(self)@,
                calls == nucleus@.zome_calls,
                waiters_view(kept@) == still_waiting(s.subrange(0, i as int), calls),
                deliveries_view(out@) == deliveries(s.subrange(0, i as int), calls),
            decreases n - i,
        {
            let (id, call) = &self.waiting[i];
            let ghost sub = s.subrange(0, i + 1);
            proof {
                assert(sub.drop_last() =~= s.subrange(0, i as int));
                assert(s[i as int] == (*id, call@));
                assert(sub.last() == (*id, call@));
            }
            match nucleus.zome_call_result(call) {
                Some(res) => {
                    out.push((*id, res));
                    assert(deliveries_view(out@) =~= deliveries(sub, calls));
                    assert(waiters_view(kept@) =~= still_waiting(sub, calls));
                },
                None => {
                    kept.push((*id, call.clone()));
                    assert(waiters_view(kept@) =~= still_waiting(sub, calls));
                    assert(deliveries_view(out@) =~= deliveries(sub, calls));
                },
            }
            i = i + 1;
        }
        assert(s.subrange(0, n as int) =~= s);
        self.waiting = kept;
        out
    }
}

} // verus!
