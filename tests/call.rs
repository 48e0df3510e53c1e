use holochain_core::action::{Action, ActionWrapper, FunctionResult, ZomeFnCall};
use holochain_core::agent::AgentState;
use holochain_core::call::{
    begin_call, finish_call, reply_for, CallReceipt, CallReply, HcApiReturnCode, ZomeCallArgs,
};
use holochain_core::chain::Chain;
use holochain_core::error::HolochainError;
use holochain_core::instance::{CallWaiters, State};
use holochain_core::nucleus::{
    reduce_call, Capability, CapabilityType, Dna, Membrane, NucleusState, Zome,
};
use holochain_core::table::HashTable;

fn create_test_dna(zome: &str, cap: &str, membrane: Membrane) -> Dna {
    Dna {
        name: "test_dna".to_string(),
        zomes: vec![Zome {
            name: zome.to_string(),
            capabilities: vec![Capability {
                name: cap.to_string(),
                cap_type: CapabilityType { membrane },
                code: vec![0, 97, 115, 109],
            }],
        }],
    }
}

/// Dispatches the test call against `dna` and returns what the blocking caller receives.
fn test_reduce_call(dna: Dna) -> (Option<Result<String, HolochainError>>, bool) {
    let zome_call = ZomeFnCall::new("test_zome", "test_cap", "test", "{}");
    let action = ActionWrapper::new(Action::Call(zome_call.clone()), 1);
    let state = State::new(
        AgentState::new(&Chain::new(HashTable::new())),
        NucleusState::with_dna(dna),
    );
    let mut waiters = CallWaiters::new();
    waiters.register(7, &zome_call);
    let (state, request) = state.reduce(&action);
    let mut delivered = waiters.fire(state.nucleus());
    assert!(delivered.len() <= 1);
    (delivered.pop().map(|(id, r)| {
        assert_eq!(7, id);
        r
    }), request.is_some())
}

#[test]
fn test_call_no_token() {
    let dna = create_test_dna("test_zome", "test_cap", Membrane::Agent);
    let (received, executed) = test_reduce_call(dna);
    assert_eq!(Some(Err(HolochainError::DoesNotHaveCapabilityToken)), received);
    assert!(!executed);
}

#[test]
fn test_call_no_zome() {
    let dna = create_test_dna("bad_zome", "test_cap", Membrane::Public);
    let (received, executed) = test_reduce_call(dna);
    assert_eq!(
        Some(Err(HolochainError::ZomeNotFound(
            r#"Zome 'test_zome' not found"#.to_string(),
        ))),
        received
    );
    assert!(!executed);
}

#[test]
fn test_call_ok() {
    let dna = create_test_dna("test_zome", "test_cap", Membrane::Public);
    // the call is handed to the executor and stays pending: nothing is delivered yet
    let (received, executed) = test_reduce_call(dna);
    assert_eq!(None, received);
    assert!(executed);
}

#[test]
fn capability_not_found() {
    let mut state = NucleusState::with_dna(create_test_dna("test_zome", "other_cap", Membrane::Public));
    let call = ZomeFnCall::new("test_zome", "test_cap", "test", "{}");
    assert!(reduce_call(&mut state, &call).is_none());
    assert_eq!(
        Some(Err(HolochainError::CapabilityNotFound(
            "Capability 'test_cap' not found in Zome 'test_zome'".to_string()
        ))),
        state.zome_call_result(&call)
    );
}

#[test]
fn dna_missing() {
    let mut state = NucleusState::new();
    let call = ZomeFnCall::new("test_zome", "test_cap", "test", "{}");
    assert!(reduce_call(&mut state, &call).is_none());
    assert_eq!(Some(Err(HolochainError::DnaMissing)), state.zome_call_result(&call));
}

#[test]
fn every_closed_membrane_is_denied() {
    for membrane in [Membrane::Zome, Membrane::Agent, Membrane::ApiKey] {
        let mut state = NucleusState::with_dna(create_test_dna("test_zome", "test_cap", membrane));
        let call = ZomeFnCall::new("test_zome", "test_cap", "test", "{}");
        assert!(reduce_call(&mut state, &call).is_none());
        assert_eq!(
            Some(Err(HolochainError::DoesNotHaveCapabilityToken)),
            state.zome_call_result(&call)
        );
    }
}

#[test]
fn public_call_reaches_executor_then_result_is_delivered() {
    let mut state = NucleusState::with_dna(create_test_dna("test_zome", "test_cap", Membrane::Public));
    let call = ZomeFnCall::new("test_zome", "test_cap", "test", "{}");
    let request = reduce_call(&mut state, &call).expect("public capability runs");
    assert!(request.call == call);
    assert_eq!(vec![0, 97, 115, 109], request.code);
    assert_eq!("test_dna", request.dna_name);
    assert_eq!(Some(None), state.zome_call_status(&call));

    let mut waiters = CallWaiters::new();
    let other = ZomeFnCall::new("test_zome", "test_cap", "other", "{}");
    waiters.register(1, &call);
    waiters.register(2, &other);
    waiters.register(3, &call);
    assert!(waiters.fire(&state).is_empty());

    let done = ActionWrapper::new(
        Action::ReturnZomeFunctionResult(FunctionResult::new(call.clone(), Ok("{\"a\":1}".to_string()))),
        9,
    );
    holochain_core::nucleus::reduce(&mut state, &done);
    let delivered = waiters.fire(&state);
    assert_eq!(2, delivered.len());
    assert_eq!(1, delivered[0].0);
    assert_eq!(3, delivered[1].0);
    assert_eq!(Ok("{\"a\":1}".to_string()), delivered[0].1);
    assert!(waiters.fire(&state).is_empty());
}

#[test]
fn undecodable_arguments_give_json_error() {
    let current = ZomeFnCall::new("z", "c", "f", "{}");
    assert_eq!(Err(HcApiReturnCode::ErrorJson), begin_call(None, &current));
}

#[test]
fn recursive_call_is_rejected() {
    let current = ZomeFnCall::new("z", "c", "f", "{}");
    let args = ZomeCallArgs {
        zome_name: "z".to_string(),
        cap_name: "c".to_string(),
        fn_name: "f".to_string(),
        fn_args: "{}".to_string(),
    };
    assert_eq!(Err(HcApiReturnCode::ErrorRecursiveCall), begin_call(Some(args.clone()), &current));
    let mut other = args;
    other.fn_args = "{\"x\":1}".to_string();
    let call = begin_call(Some(other), &current).expect("a different call is dispatched");
    assert!(call == ZomeFnCall::new("z", "c", "f", "{\"x\":1}"));
}

#[test]
fn finished_call_is_written_or_coded() {
    match finish_call(Ok("\"r\"".to_string())) {
        CallReply::WriteResult(s) => assert_eq!("\"r\"", s),
        CallReply::Code(_) => panic!("a result is written back"),
    }
    match finish_call(Err(HolochainError::DnaMissing)) {
        CallReply::Code(c) => {
            assert_eq!(HcApiReturnCode::ErrorActionResult, c);
            assert_eq!(3, c.code());
        },
        CallReply::WriteResult(_) => panic!("an error becomes a code"),
    }
    assert_eq!(0, HcApiReturnCode::Success.code());
}

#[test]
fn finished_call_stays_finished() {
    let mut state = NucleusState::with_dna(create_test_dna("test_zome", "test_cap", Membrane::Public));
    let call = ZomeFnCall::new("test_zome", "test_cap", "test", "{}");
    assert!(reduce_call(&mut state, &call).is_some());
    let done = FunctionResult::new(call.clone(), Ok("1".to_string()));
    holochain_core::nucleus::reduce_return_result(&mut state, &done);
    assert_eq!(Some(Ok("1".to_string())), state.zome_call_result(&call));

    // the same call again is neither run nor put back to pending
    assert!(reduce_call(&mut state, &call).is_none());
    assert_eq!(Some(Some(Ok("1".to_string()))), state.zome_call_status(&call));

    // a later outcome does not replace the first result
    let late = FunctionResult::new(call.clone(), Err(HolochainError::DnaMissing));
    holochain_core::nucleus::reduce_return_result(&mut state, &late);
    assert_eq!(Some(Ok("1".to_string())), state.zome_call_result(&call));
}

#[test]
fn timeout_and_disconnect_give_timeout_code() {
    for receipt in [CallReceipt::Timeout, CallReceipt::Disconnected] {
        match reply_for(receipt) {
            CallReply::Code(c) => {
                assert_eq!(HcApiReturnCode::ErrorTimeout, c);
                assert_eq!(4, c.code());
            },
            CallReply::WriteResult(_) => panic!("no result was received"),
        }
    }
    match reply_for(CallReceipt::Received(Ok("\"r\"".to_string()))) {
        CallReply::WriteResult(s) => assert_eq!("\"r\"", s),
        CallReply::Code(_) => panic!("a result is written back"),
    }
    match reply_for(CallReceipt::Received(Err(HolochainError::DnaMissing))) {
        CallReply::Code(c) => assert_eq!(HcApiReturnCode::ErrorActionResult, c),
        CallReply::WriteResult(_) => panic!("an error becomes a code"),
    }
}

#[test]
fn dispatched_request_carries_code_and_dna_name() {
    let mut state = NucleusState::with_dna(create_test_dna("test_zome", "test_cap", Membrane::Public));
    let call = ZomeFnCall::new("test_zome", "test_cap", "test", "{}");
    let aw = ActionWrapper::new(Action::Call(call.clone()), 4);
    let request = holochain_core::nucleus::reduce(&mut state, &aw).expect("public call runs");
    assert!(request.call == call);
    assert_eq!(vec![0, 97, 115, 109], request.code);
    assert_eq!("test_dna", request.dna_name);
}
