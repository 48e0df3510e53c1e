//! The nucleus slice of state: the loaded DNA and the table of zome function
//! calls, with the capability-gated call reducer.

use crate::action::{Action, ActionWrapper, FunctionResult, ZomeFnCall, ZomeFnCallV};
use crate::error::{ErrorV, HolochainError};
use vstd::prelude::*;

verus! {

/// The authorization tier that a capability requires.
#[derive(Debug, Clone, Copy, PartialEq, Eq, Structural)]
pub enum Membrane {
    Public,
    Zome,
    Agent,
    ApiKey,
}

/// How a capability may be called.
#[derive(Debug, Clone, Copy, PartialEq, Eq, Structural)]
pub struct CapabilityType {
    pub membrane: Membrane,
}

/// A named group of functions, with the code that runs them.
#[derive(Debug)]
pub struct Capability {
    pub name: String,
    pub cap_type: CapabilityType,
    pub code: Vec<u8>,
}

/// A zome: a named set of capabilities.
#[derive(Debug)]
pub struct Zome {
    pub name: String,
    pub capabilities: Vec<Capability>,
}

/// The application's DNA, as far as calls need it.
#[derive(Debug)]
pub struct Dna {
    pub name: String,
    pub zomes: Vec<Zome>,
}

/// The first zome named `name`.
pub open spec fn find_zome(zs: Seq<Zome>, name: Seq<char>) -> Option<Zome>
    decreases zs.len(),
{
    if zs.len() == 0 {
        None
    } else if zs[0].name@ == name {
        Some(zs[0])
    } else {
        find_zome(zs.subrange(1, zs.len() as int), name)
    }
}

/// The first capability named `name`.
pub open spec fn find_capability(cs: Seq<Capability>, name: Seq<char>) -> Option<Capability>
    decreases cs.len(),
{
    if cs.len() == 0 {
        None
    } else if cs[0].name@ == name {
        Some(cs[0])
    } else {
        find_capability(cs.subrange(1, cs.len() as int), name)
    }
}

/// The message of the error for a missing zome.
pub open spec fn zome_not_found_message(zome: Seq<char>) -> Seq<char> {
    "Zome '"@ + zome + "' not found"@
}

/// The message of the error for a missing capability.
pub open spec fn capability_not_found_message(cap: Seq<char>, zome: Seq<char>) -> Seq<char> {
    "Capability '"@ + cap + "' not found in Zome '"@ + zome + "'"@
}

/// The capability that `call` names in `dna`, or why there is none.
pub open spec fn capability_lookup(dna: Option<Dna>, call: ZomeFnCallV) -> Result<Capability, ErrorV> {
    match dna {
        None => Err(ErrorV::DnaMissing),
        Some(d) => match find_zome(d.zomes@, call.zome_name) {
            None => Err(ErrorV::ZomeNotFound(zome_not_found_message(call.zome_name))),
            Some(z) => match find_capability(z.capabilities@, call.cap_name) {
                None => Err(
                    ErrorV::CapabilityNotFound(
                        capability_not_found_message(call.cap_name, call.zome_name),
                    ),
                ),
                Some(c) => Ok(c),
            },
        },
    }
}

impl Zome {
    /// The first capability named `name`.
    pub fn capability(&self, name: &String) -> (r: Option<&Capability>)
        ensures
            match r {
                Some(c) => find_capability(self.capabilities@, name@) == Some(*c),
                None => find_capability(self.capabilities@, name@) is None,
            },
    {
        let cs = &self.capabilities;
        let mut i: usize = 0;
        assert(cs@.subrange(0, cs@.len() as int) =~= cs@);
        while i < cs.len()
            invariant
                i <= cs@.len(),
                cs@ == self.capabilities@,
                find_capability(cs@, name@) == find_capability(cs@.subrange(i as int, cs@.len() as int), name@),
            decreases cs@.len() - i,
        {
            let ghost rest = cs@.subrange(i as int, cs@.len() as int);
            assert(rest[0] == cs@[i as int]);
            assert(rest.subrange(1, rest.len() as int) =~= cs@.subrange(i + 1, cs@.len() as int));
            if cs[i].name.eq(name) {
                return Some(&cs[i]);
            }
            i = i + 1;
        }
        None
    }
}

impl Dna {
    /// The first zome named `name`.
    pub fn zome(&self, name: &String) -> (r: Option<&Zome>)
        ensures
            match r {
                Some(z) => find_zome(self.zomes@, name@) == Some(*z),
                None => find_zome(self.zomes@, name@) is None,
            },
    {
        let zs = &self.zomes;
        let mut i: usize = 0;
        assert(zs@.subrange(0, zs@.len() as int) =~= zs@);
        while i < zs.len()
            invariant
                i <= zs@.len(),
                zs@ == self.zomes@,
                find_zome(zs@, name@) == find_zome(zs@.subrange(i as int, zs@.len() as int), name@),
            decreases zs@.len() - i,
        {
            let ghost rest = zs@.subrange(i as int, zs@.len() as int);
            assert(rest[0] == zs@[i as int]);
            assert(rest.subrange(1, rest.len() as int) =~= zs@.subrange(i + 1, zs@.len() as int));
            if zs[i].name.eq(name) {
                return Some(&zs[i]);
            }
            i = i + 1;
        }
        None
    }

    /// The capability `cap_name` of zome `zome_name`, or the error saying which is missing.
    pub fn get_capability_with_zome_name(&self, zome_name: &String, cap_name: &String) -> (r: Result<
        &Capability,
        HolochainError,
    >)
        ensures
            match r {
                Ok(c) => capability_lookup(Some(*self), ZomeFnCallV {
                    zome_name: zome_name@,
                    cap_name: cap_name@,
                    fn_name: Seq::empty(),
                    fn_args: Seq::empty(),
                }) == Ok::<Capability, ErrorV>(*c),
                Err(e) => capability_lookup(Some(*self), ZomeFnCallV {
                    zome_name: zome_name@,
                    cap_name: cap_name@,
                    fn_name: Seq::empty(),
                    fn_args: Seq::empty(),
                }) == Err::<Capability, ErrorV>(e@),
            },
    {
        match self.zome(zome_name) {
            None => {
                let mut msg = String::from_str("Zome '");
                msg.append(zome_name.as_str());
                msg.append("' not found");
                Err(HolochainError::ZomeNotFound(msg))
            },
            Some(z) => match z.capability(cap_name) {
                None => {
                    let mut msg = String::from_str("Capability '");
                    msg.append(cap_name.as_str());
                    msg.append("' not found in Zome '");
                    msg.append(zome_name.as_str());
                    msg.append("'");
                    Err(HolochainError::CapabilityNotFound(msg))
                },
                Some(c) => Ok(c),
            },
        }
    }
}

/// The state of a call: pending (`None`) or finished with its result.
pub type CallStatus = Option<Result<String, HolochainError>>;

/// The mathematical value of a call's state.
pub type CallStatusV = Option<Result<Seq<char>, ErrorV>>;

/// The view of a call's state.
pub open spec fn status_view(s: CallStatus) -> CallStatusV {
    match s {
        None => None,
        Some(Ok(j)) => Some(Ok(j@)),
        Some(Err(e)) => Some(Err(e@)),
    }
}

/// The mathematical value of the nucleus state.
pub ghost struct NucleusStateV {
    pub dna: Option<Dna>,
    /// Each call with its state, oldest first; the latest record of a call is its state.
    pub zome_calls: Seq<(ZomeFnCallV, CallStatusV)>,
}

/// The latest state recorded for `call`, or `None` where the call is unknown.
pub open spec fn call_status(s: Seq<(ZomeFnCallV, CallStatusV)>, call: ZomeFnCallV) -> Option<
    CallStatusV,
>
    decreases s.len(),
{
    if s.len() == 0 {
        None
    } else if s.last().0 == call {
        Some(s.last().1)
    } else {
        call_status(s.drop_last(), call)
    }
}

/// The result of `call` once it has finished.
pub open spec fn call_result(s: Seq<(ZomeFnCallV, CallStatusV)>, call: ZomeFnCallV) -> Option<
    Result<Seq<char>, ErrorV>,
> {
    match call_status(s, call) {
        Some(Some(r)) => Some(r),
        _ => None,
    }
}

/// A request to run a zome function, handed to the executor outside the state.
#[derive(Debug)]
pub struct ExecutionRequest {
    pub call: ZomeFnCall,
    pub code: Vec<u8>,
    pub dna_name: String,
}

/// The slice of state that tracks the DNA and the zome function calls.
#[derive(Debug)]
pub struct NucleusState {
    dna: Option<Dna>,
    zome_calls: Vec<(ZomeFnCall, CallStatus)>,
}

/// The views of the call records.
pub open spec fn calls_view(v: Seq<(ZomeFnCall, CallStatus)>) -> Seq<(ZomeFnCallV, CallStatusV)> {
    v.map_values(|x: (ZomeFnCall, CallStatus)| (x.0@, status_view(x.1)))
}

impl View for NucleusState {
    type V = NucleusStateV;

    closed spec fn view(&self) -> NucleusStateV {
        NucleusStateV { dna: self.dna, zome_calls: calls_view(self.zome_calls@) }
    }
}

/// Whether `call` has finished: its state only ever moves from absent to pending to
/// finished, never back.
pub open spec fn call_resolved(s: Seq<(ZomeFnCallV, CallStatusV)>, call: ZomeFnCallV) -> bool {
    call_status(s, call) matches Some(Some(_))
}

/// The state after the call reducer handled `call`: a finished call keeps its result; otherwise
/// a failed lookup or a denied membrane records the error at once, and a public capability
/// records the call as pending.
pub open spec fn call_reduced(old: NucleusStateV, call: ZomeFnCallV) -> NucleusStateV {
    if call_resolved(old.zome_calls, call) {
        old
    } else {
        let status: CallStatusV = match capability_lookup(old.dna, call) {
            Err(e) => Some(Err(e)),
            Ok(c) => if c.cap_type.membrane is Public {
                None
            } else {
                Some(Err(ErrorV::DoesNotHaveCapabilityToken))
            },
        };
        NucleusStateV { dna: old.dna, zome_calls: old.zome_calls.push((call, status)) }
    }
}

/// Whether the call reducer hands `call` to the executor: only a call that has not finished and
/// names a found capability with a public membrane is run.
pub open spec fn call_authorized(old: NucleusStateV, call: ZomeFnCallV) -> bool {
    &&& !call_resolved(old.zome_calls, call)
    &&& capability_lookup(old.dna, call) matches Ok(c) && c.cap_type.membrane is Public
}

/// `req` runs `call` with the code of the capability it names and the name of the DNA.
pub open spec fn request_for(req: ExecutionRequest, dna: Option<Dna>, call: ZomeFnCallV) -> bool {
    &&& req.call@ == call
    &&& capability_lookup(dna, call) matches Ok(c) && req.code@ == c.code@
    &&& dna matches Some(d) && req.dna_name@ == d.name@
}

/// The state after the outcome of an executed call was folded in: a call that has already
/// finished keeps its first result.
pub open spec fn result_returned(old: NucleusStateV, fr: FunctionResult) -> NucleusStateV {
    if call_resolved(old.zome_calls, fr.call@) {
        old
    } else {
        NucleusStateV {
            dna: old.dna,
            zome_calls: old.zome_calls.push((fr.call@, status_view(Some(fr.result)))),
        }
    }
}

fn copy_bytes(v: &Vec<u8>) -> (r: Vec<u8>)
    ensures
        r@ == v@,
{
    let mut out: Vec<u8> = Vec::new();
    let mut i: usize = 0;
    while i < v.len()
        invariant
            i <= v@.len(),
            out@ == v@.subrange(0, i as int),
        decreases v@.len() - i,
    {
        out.push(v[i]);
        i = i + 1;
        assert(out@ =~= v@.subrange(0, i as int));
    }
    assert(v@.subrange(0, i as int) =~= v@);
    out
}

fn copy_status(s: &CallStatus) -> (r: CallStatus)
    ensures
        status_view(r) == status_view(*s),
{
    match s {
        None => None,
        Some(Ok(j)) => Some(Ok(j.clone())),
        Some(Err(e)) => Some(Err(e.clone())),
    }
}

impl NucleusState {
    /// A state with no DNA and no calls.
    pub fn new() -> (r: NucleusState)
        ensures
            r@.dna is None,
            r@.zome_calls == Seq::<(ZomeFnCallV, CallStatusV)>::empty(),
    {
        let r = NucleusState { dna: None, zome_calls: Vec::new() };
        assert(r@.zome_calls =~= Seq::<(ZomeFnCallV, CallStatusV)>::empty());
        r
    }

    /// A state with `dna` loaded and no calls.
    pub fn with_dna(dna: Dna) -> (r: NucleusState)
        ensures
            r@.dna == Some(dna),
            r@.zome_calls == Seq::<(ZomeFnCallV, CallStatusV)>::empty(),
    {
        let r = NucleusState { dna: Some(dna), zome_calls: Vec::new() };
        assert(r@.zome_calls =~= Seq::<(ZomeFnCallV, CallStatusV)>::empty());
        r
    }

    /// The loaded DNA.
    pub fn dna(&self) -> (r: &Option<Dna>)
        ensures
            *r == self@.dna,
    {
        &self.dna
    }

    /// The capability that `call` names, or why there is none.
    pub fn get_capability(&self, call: &ZomeFnCall) -> (r: Result<&Capability, HolochainError>)
        ensures
            match r {
                Ok(c) => capability_lookup(self@.dna, call@) == Ok::<Capability, ErrorV>(*c),
                Err(e) => capability_lookup(self@.dna, call@) == Err::<Capability, ErrorV>(e@),
            },
    {
        match &self.dna {
            None => Err(HolochainError::DnaMissing),
            Some(d) => {
                let r = d.get_capability_with_zome_name(&call.zome_name, &call.cap_name);
                r
            },
        }
    }

    /// The state recorded for `call`: `None` where unknown, `Some(None)` while pending.
    pub fn zome_call_status(&self, call: &ZomeFnCall) -> (r: Option<CallStatus>)
        ensures
            match r {
                Some(st) => call_status(self@.zome_calls, call@) == Some(status_view(st)),
                None => call_status(self@.zome_calls, call@) is None,
            },
    {
        let ghost s = self@.zome_calls;
        let mut i: usize = self.zome_calls.len();
        assert(s.subrange(0, i as int) =~= s);
        while i > 0
            invariant
                i <= self.zome_calls@.len(),
                s == self@.zome_calls,
                s.len() == self.zome_calls@.len(),
                call_status(s, call@) == call_status(s.subrange(0, i as int), call@),
            decreases i,
        {
            let (c, st) = &self.zome_calls[i - 1];
            proof {
                let sub = s.subrange(0, i as int);
                assert(s[i - 1] == (c@, status_view(*st)));
                assert(sub.drop_last() =~= s.subrange(0, i - 1));
            }
            if c.same_as(call) {
                return Some(copy_status(st));
            }
            i = i - 1;
        }
        None
    }

    /// The result of `call` once it has finished; `None` while it is pending or unknown.
    pub fn zome_call_result(&self, call: &ZomeFnCall) -> (r: Option<Result<String, HolochainError>>)
        ensures
            status_view(r) == match call_result(self@.zome_calls, call@) {
                Some(x) => Some(x),
                None => None::<Result<Seq<char>, ErrorV>>,
            },
            r is Some <==> call_result(self@.zome_calls, call@) is Some,
    {
        match self.zome_call_status(call) {
            Some(Some(res)) => Some(res),
            _ => None,
        }
    }

    fn record(&mut self, call: &ZomeFnCall, status: CallStatus)
        ensures
            final(self)@ == (NucleusStateV {
                dna: old(self)@.dna,
                zome_calls: old(self)@.zome_calls.push((call@, status_view(status))),
            }),
    {
        self.zome_calls.push((call.clone(), status));
        assert(self@.zome_calls =~= old(self)@.zome_calls.push((call@, status_view(status))));
    }
}

/// The call reducer. A call that has already finished is left as it is and not run again.
/// Otherwise it looks up the capability that `call` names: where there is none, the error is
/// recorded as the call's result; where its membrane is not public, a missing-token error is;
/// only for a public capability is the call recorded as pending and handed, with the
/// capability's code, to the executor.
pub fn reduce_call(state: &mut NucleusState, call: &ZomeFnCall) -> (r: Option<ExecutionRequest>)
    ensures
        final(state)@ == call_reduced(old(state)@, call@),
        r is Some <==> call_authorized(old(state)@, call@),
        r matches Some(req) ==> request_for(req, old(state)@.dna, call@),
{
    if state.zome_call_result(call).is_some() {
        return None;
    }
    let request = match state.get_capability(call) {
        Err(e) => {
            state.record(call, Some(Err(e)));
            return None;
        },
        Ok(cap) => {
            let can_call = match cap.cap_type.membrane {
                Membrane::Public => true,
                Membrane::Zome => false,
                Membrane::Agent => false,
                Membrane::ApiKey => false,
            };
            if !can_call {
                None
            } else {
                let dna_name = match &state.dna {
                    Some(d) => d.name.clone(),
                    None => String::new(),
                };
                Some(ExecutionRequest { call: call.clone(), code: copy_bytes(&cap.code), dna_name })
            }
        },
    };
    match request {
        None => {
            state.record(call, Some(Err(HolochainError::DoesNotHaveCapabilityToken)));
            None
        },
        Some(req) => {
            state.record(call, None);
            Some(req)
        },
    }
}

/// Folds the outcome of an executed call into the call table as the call's result, unless the
/// call has already finished.
pub fn reduce_return_result(state: &mut NucleusState, result: &FunctionResult)
    ensures
        final(state)@ == result_returned(old(state)@, *result),
{
    if state.zome_call_result(&result.call).is_some() {
        return;
    }
    let status = match &result.result {
        Ok(j) => Some(Ok(j.clone())),
        Err(e) => Some(Err(e.clone())),
    };
    state.record(&result.call, status);
}

/// The nucleus state after `aw` was reduced.
pub open spec fn nucleus_reduced(old: NucleusStateV, aw: ActionWrapper) -> NucleusStateV {
    match aw.spec_action() {
        Action::Call(call) => call_reduced(old, call@),
        Action::ReturnZomeFunctionResult(fr) => result_returned(old, fr),
        _ => old,
    }
}

/// Whether reducing `aw` hands a call to the executor.
pub open spec fn executes(old: NucleusStateV, aw: ActionWrapper) -> bool {
    aw.spec_action() matches Action::Call(call) && call_authorized(old, call@)
}

/// `r` is what reducing `aw` on `old` asks the executor to run: nothing, or the call of a
/// call action with its capability's code and the DNA's name.
pub open spec fn execution_of(r: Option<ExecutionRequest>, old: NucleusStateV, aw: ActionWrapper) -> bool {
    &&& r is Some <==> executes(old, aw)
    &&& r matches Some(req) ==> (aw.spec_action() is Call && request_for(
        req,
        old.dna,
        aw.spec_action()->Call_0@,
    ))
}

/// A call's state only moves forward: reducing any action keeps a known call known and a
/// finished call finished with the same result.
pub proof fn lemma_call_state_monotonic(old: NucleusStateV, aw: ActionWrapper, call: ZomeFnCallV)
    ensures
        call_status(old.zome_calls, call) is Some ==> call_status(
            nucleus_reduced(old, aw).zome_calls,
            call,
        ) is Some,
        call_resolved(old.zome_calls, call) ==> call_status(nucleus_reduced(old, aw).zome_calls, call)
            == call_status(old.zome_calls, call),
{
    let new = nucleus_reduced(old, aw).zome_calls;
    if new != old.zome_calls {
        assert(new.len() == old.zome_calls.len() + 1);
        assert(new.drop_last() =~= old.zome_calls);
    }
}

/// Reduces the nucleus state by `aw`, and returns the execution it asks for, if any. Actions
/// that the nucleus does not handle leave it as it was.
pub fn reduce(state: &mut NucleusState, aw: &ActionWrapper) -> (r: Option<ExecutionRequest>)
    ensures
        final(state)@ == nucleus_reduced(old(state)@, *aw),
        execution_of(r, old(state)@, *aw),
{
    match aw.action() {
        Action::Call(call) => reduce_call(state, call),
        Action::ReturnZomeFunctionResult(fr) => {
            reduce_return_result(state, fr);
            None
        },
        _ => None,
    }
}

} // verus!
