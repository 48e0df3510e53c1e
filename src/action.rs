//! Actions: immutable descriptions of requested mutations, and the identity of a
//! zome function call.

use crate::entry::Entry;
use crate::error::HolochainError;
use vstd::prelude::*;

verus! {

/// The identity of a requested function invocation.
#[derive(Debug)]
pub struct ZomeFnCall {
    pub zome_name: String,
    pub cap_name: String,
    pub fn_name: String,
    pub fn_args: String,
}

/// The mathematical value of a call: its four fields.
pub ghost struct ZomeFnCallV {
    pub zome_name: Seq<char>,
    pub cap_name: Seq<char>,
    pub fn_name: Seq<char>,
    pub fn_args: Seq<char>,
}

impl View for ZomeFnCall {
    type V = ZomeFnCallV;

    open spec fn view(&self) -> ZomeFnCallV {
        ZomeFnCallV {
            zome_name: self.zome_name@,
            cap_name: self.cap_name@,
            fn_name: self.fn_name@,
            fn_args: self.fn_args@,
        }
    }
}

impl ZomeFnCall {
    /// The call of `fn_name` with `fn_args` in capability `cap_name` of zome `zome_name`.
    pub fn new(zome_name: &str, cap_name: &str, fn_name: &str, fn_args: &str) -> (r: ZomeFnCall)
        ensures
            r@ == (ZomeFnCallV {
                zome_name: zome_name@,
                cap_name: cap_name@,
                fn_name: fn_name@,
                fn_args: fn_args@,
            }),
    {
        ZomeFnCall {
            zome_name: String::from_str(zome_name),
            cap_name: String::from_str(cap_name),
            fn_name: String::from_str(fn_name),
            fn_args: String::from_str(fn_args),
        }
    }

    /// Whether the two calls are the same call: all four fields match.
    pub fn same_as(&self, other: &ZomeFnCall) -> (r: bool)
        ensures
            r == (self@ == other@),
    {
        self.zome_name.eq(&other.zome_name) && self.cap_name.eq(&other.cap_name)
            && self.fn_name.eq(&other.fn_name) && self.fn_args.eq(&other.fn_args)
    }
}

impl Clone for ZomeFnCall {
    fn clone(&self) -> (r: Self)
        ensures
            r == *self,
    {
        ZomeFnCall {
            zome_name: self.zome_name.clone(),
            cap_name: self.cap_name.clone(),
            fn_name: self.fn_name.clone(),
            fn_args: self.fn_args.clone(),
        }
    }
}

impl PartialEq for ZomeFnCall {
    fn eq(&self, other: &ZomeFnCall) -> (r: bool)
        ensures
            r == (self@ == other@),
    {
        self.same_as(other)
    }
}

impl vstd::std_specs::cmp::PartialEqSpecImpl for ZomeFnCall {
    open spec fn obeys_eq_spec() -> bool {
        true
    }

    open spec fn eq_spec(&self, other: &ZomeFnCall) -> bool {
        self@ == other@
    }
}

/// The outcome of an executed call.
#[derive(Debug)]
pub struct FunctionResult {
    pub call: ZomeFnCall,
    pub result: Result<String, HolochainError>,
}

impl FunctionResult {
    /// The outcome `result` of `call`.
    pub fn new(call: ZomeFnCall, result: Result<String, HolochainError>) -> (r: FunctionResult)
        ensures
            r.call == call,
            r.result == result,
    {
        FunctionResult { call, result }
    }
}

/// A requested mutation of state.
#[derive(Debug)]
pub enum Action {
    /// Commit an entry to the agent's chain.
    Commit(Entry),
    /// Look up an entry by its key.
    GetEntry(String),
    /// Call a zome function.
    Call(ZomeFnCall),
    /// Fold the outcome of an executed call back into state.
    ReturnZomeFunctionResult(FunctionResult),
}

/// An action together with a token that tells apart two requests of the same action.
#[derive(Debug)]
pub struct ActionWrapper {
    action: Action,
    id: u64,
}

impl ActionWrapper {
    /// Wraps `action` under the token `id`, which the caller keeps unique.
    pub fn new(action: Action, id: u64) -> (r: ActionWrapper)
        ensures
            r.spec_action() == action,
            r.spec_id() == id,
    {
        ActionWrapper { action, id }
    }

    /// The wrapped action.
    pub closed spec fn spec_action(&self) -> Action {
        self.action
    }

    /// The token.
    pub closed spec fn spec_id(&self) -> u64 {
        self.id
    }

    /// The wrapped action.
    pub fn action(&self) -> (r: &Action)
        ensures
            *r == self.spec_action(),
    {
        &self.action
    }

    /// The token.
    #[verifier::when_used_as_spec(spec_id)]
    pub fn id(&self) -> (r: u64)
        ensures
            r == self.spec_id(),
    {
        self.id
    }
}

} // verus!
