//! The synchronous call bridge: the decisions a blocking caller makes before it
//! dispatches a call and after the result comes back.

use crate::action::{ZomeFnCall, ZomeFnCallV};
use crate::error::HolochainError;
use vstd::prelude::*;

verus! {

/// The arguments of a call, as the caller encodes them.
#[derive(Debug)]
pub struct ZomeCallArgs {
    pub zome_name: String,
    pub cap_name: String,
    pub fn_name: String,
    pub fn_args: String,
}

/// The call that a set of arguments names.
pub open spec fn args_call(a: ZomeCallArgs) -> ZomeFnCallV {
    ZomeFnCallV {
        zome_name: a.zome_name@,
        cap_name: a.cap_name@,
        fn_name: a.fn_name@,
        fn_args: a.fn_args@,
    }
}

impl Clone for ZomeCallArgs {
    fn clone(&self) -> (r: Self)
        ensures
            r == *self,
    {
        ZomeCallArgs {
            zome_name: self.zome_name.clone(),
            cap_name: self.cap_name.clone(),
            fn_name: self.fn_name.clone(),
            fn_args: self.fn_args.clone(),
        }
    }
}

impl PartialEq for ZomeCallArgs {
    fn eq(&self, other: &ZomeCallArgs) -> (r: bool)
        ensures
            r == (args_call(*self) == args_call(*other)),
    {
        self.zome_name.eq(&other.zome_name) && self.cap_name.eq(&other.cap_name)
            && self.fn_name.eq(&other.fn_name) && self.fn_args.eq(&other.fn_args)
    }
}

impl vstd::std_specs::cmp::PartialEqSpecImpl for ZomeCallArgs {
    open spec fn obeys_eq_spec() -> bool {
        true
    }

    open spec fn eq_spec(&self, other: &ZomeCallArgs) -> bool {
        args_call(*self) == args_call(*other)
    }
}

impl ZomeFnCall {
    /// The call that `args` names.
    pub fn from_args(args: ZomeCallArgs) -> (r: ZomeFnCall)
        ensures
            r@ == args_call(args),
    {
        ZomeFnCall {
            zome_name: args.zome_name,
            cap_name: args.cap_name,
            fn_name: args.fn_name,
            fn_args: args.fn_args,
        }
    }
}

/// The codes that the bridge returns to the execution sandbox.
#[derive(Debug, Clone, Copy, PartialEq, Eq, Structural)]
pub enum HcApiReturnCode {
    Success,
    ErrorJson,
    ErrorRecursiveCall,
    ErrorActionResult,
    ErrorTimeout,
}

impl HcApiReturnCode {
    /// The integer that crosses the sandbox boundary.
    pub fn code(&self) -> (r: i32)
        ensures
            r == match *self {
                HcApiReturnCode::Success => 0i32,
                HcApiReturnCode::ErrorJson => 1i32,
                HcApiReturnCode::ErrorRecursiveCall => 2i32,
                HcApiReturnCode::ErrorActionResult => 3i32,
                HcApiReturnCode::ErrorTimeout => 4i32,
            },
    {
        match self {
            HcApiReturnCode::Success => 0,
            HcApiReturnCode::ErrorJson => 1,
            HcApiReturnCode::ErrorRecursiveCall => 2,
            HcApiReturnCode::ErrorActionResult => 3,
            HcApiReturnCode::ErrorTimeout => 4,
        }
    }
}

/// What the bridge hands back to the sandbox once the call has finished.
#[derive(Debug)]
pub enum CallReply {
    /// The result's JSON, to be written into the sandbox's memory.
    WriteResult(String),
    /// A return code.
    Code(HcApiReturnCode),
}

/// The first step of a call. Arguments that could not be decoded give a decode-error code; a
/// call identical in all four fields to the one running now gives a recursive-call code; in
/// both cases nothing is dispatched. Otherwise the call to dispatch is returned.
pub fn begin_call(decoded: Option<ZomeCallArgs>, current: &ZomeFnCall) -> (r: Result<
    ZomeFnCall,
    HcApiReturnCode,
>)
    ensures
        decoded is None ==> r == Err::<ZomeFnCall, HcApiReturnCode>(HcApiReturnCode::ErrorJson),
        decoded is Some && args_call(decoded->Some_0) == current@ ==> r == Err::<
            ZomeFnCall,
            HcApiReturnCode,
        >(HcApiReturnCode::ErrorRecursiveCall),
        decoded is Some && args_call(decoded->Some_0) != current@ ==> (r is Ok && r->Ok_0@
            == args_call(decoded->Some_0)),
{
    match decoded {
        None => Err(HcApiReturnCode::ErrorJson),
        Some(args) => {
            let call = ZomeFnCall::from_args(args);
            if call.same_as(current) {
                Err(HcApiReturnCode::ErrorRecursiveCall)
            } else {
                Ok(call)
            }
        },
    }
}

/// The last step of a call: a successful result is written back, a failed one becomes an
/// action-result code.
pub fn finish_call(result: Result<String, HolochainError>) -> (r: CallReply)
    ensures
        result is Ok ==> (r is WriteResult && r->WriteResult_0@ == result->Ok_0@),
        result is Err ==> r == CallReply::Code(HcApiReturnCode::ErrorActionResult),
{
    match result {
        Ok(json) => CallReply::WriteResult(json),
        Err(_) => CallReply::Code(HcApiReturnCode::ErrorActionResult),
    }
}

/// What a blocked caller got from its one-shot channel.
#[derive(Debug)]
pub enum CallReceipt {
    /// The call's result arrived in time.
    Received(Result<String, HolochainError>),
    /// No result arrived within the receive timeout.
    Timeout,
    /// The sending side was dropped before it delivered a result.
    Disconnected,
}

/// The reply for what the caller received: a result is handled as `finish_call` does; a
/// timeout or a dropped sender gives the timeout code instead of a hang or a panic.
pub fn reply_for(receipt: CallReceipt) -> (r: CallReply)
    ensures
        receipt matches CallReceipt::Received(Ok(j)) ==> (r is WriteResult && r->WriteResult_0@
            == j@),
        receipt matches CallReceipt::Received(Err(_)) ==> r == CallReply::Code(
            HcApiReturnCode::ErrorActionResult,
        ),
        receipt is Timeout || receipt is Disconnected ==> r == CallReply::Code(
            HcApiReturnCode::ErrorTimeout,
        ),
{
    match receipt {
        CallReceipt::Received(result) => finish_call(result),
        CallReceipt::Timeout => CallReply::Code(HcApiReturnCode::ErrorTimeout),
        CallReceipt::Disconnected => CallReply::Code(HcApiReturnCode::ErrorTimeout),
    }
}

} // verus!
