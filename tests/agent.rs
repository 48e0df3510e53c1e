use holochain_core::action::{Action, ActionWrapper};
use holochain_core::agent::{reduce, reduce_commit, reduce_get, ActionResponse, AgentState};
use holochain_core::chain::Chain;
use holochain_core::entry::Entry;
use holochain_core::error::HolochainError;
use holochain_core::pair::Pair;
use holochain_core::table::HashTable;
use std::sync::Arc;

fn test_entry() -> Entry {
    Entry::new("testEntryType", "test entry content")
}

fn test_chain() -> Chain {
    Chain::new(HashTable::new())
}

fn test_pair() -> Pair {
    test_chain().create_next_pair(&test_entry())
}

fn test_agent_state() -> AgentState {
    AgentState::new(&test_chain())
}

fn test_action_wrapper_commit() -> ActionWrapper {
    ActionWrapper::new(Action::Commit(test_entry()), 1)
}

fn test_action_wrapper_get(id: u64) -> ActionWrapper {
    ActionWrapper::new(Action::GetEntry(test_entry().key()), id)
}

fn test_action_response_commit() -> ActionResponse {
    ActionResponse::Commit(Ok(test_pair()))
}

fn test_action_response_get() -> ActionResponse {
    ActionResponse::GetEntry(Some(test_pair()))
}

#[test]
fn agent_state_new() {
    test_agent_state();
}

#[test]
fn agent_state_keys() {
    assert!(test_agent_state().keys().is_none());
}

#[test]
fn agent_state_actions() {
    assert!(test_agent_state().actions().is_empty());
}

#[test]
fn test_reduce_commit() {
    let mut state = test_agent_state();
    let action_wrapper = test_action_wrapper_commit();

    reduce_commit(&mut state, &action_wrapper);

    assert_eq!(
        state.action_response(&action_wrapper),
        Some(test_action_response_commit()),
    );
}

#[test]
fn test_reduce_get() {
    let mut state = test_agent_state();

    let aw1 = test_action_wrapper_get(2);
    reduce_get(&mut state, &aw1);

    assert_eq!(
        state.action_response(&aw1),
        Some(ActionResponse::GetEntry(None)),
    );

    reduce_commit(&mut state, &test_action_wrapper_commit());

    let aw2 = test_action_wrapper_get(3);
    reduce_get(&mut state, &aw2);

    assert_eq!(state.action_response(&aw2), Some(test_action_response_get()),);
}

#[test]
fn test_response_to_json() {
    assert_eq!(
        "{\"hash\":\"QmU8vuUfCQGBb8SUdWjKqmSmsWwXBn4AJPb3HLb8cqWtYn\"}",
        ActionResponse::Commit(Ok(test_pair())).to_json(),
    );
    assert_eq!(
        "{\"error\":\"some error\"}",
        ActionResponse::Commit(Err(HolochainError::new("some error"))).to_json(),
    );

    assert_eq!(
        "{\"header\":{\"entry_type\":\"testEntryType\",\"timestamp\":\"\",\"link\":null,\"entry_hash\":\"QmbXSE38SN3SuJDmHKSSw5qWWegvU7oTxrLDRavWjyxMrT\",\"entry_signature\":\"\",\"link_same_type\":null},\"entry\":{\"content\":\"test entry content\",\"entry_type\":\"testEntryType\"}}",
        ActionResponse::GetEntry(Some(test_pair())).to_json(),
    );
    assert_eq!("", ActionResponse::GetEntry(None).to_json());
}

#[test]
fn reduce_ignores_unhandled_action_and_keeps_snapshot() {
    let old = Arc::new(test_agent_state());
    let aw = ActionWrapper::new(Action::GetEntry("nothing".to_string()), 5);
    let new = reduce(Arc::clone(&old), &aw);
    assert!(new.action_response(&aw).is_some());
    let call = holochain_core::action::ZomeFnCall::new("z", "c", "f", "{}");
    let unhandled = ActionWrapper::new(Action::Call(call), 6);
    let same = reduce(Arc::clone(&old), &unhandled);
    assert!(Arc::ptr_eq(&old, &same));
}

#[test]
fn reduce_commits_on_a_copy() {
    let old = Arc::new(test_agent_state());
    let aw = test_action_wrapper_commit();
    let new = reduce(Arc::clone(&old), &aw);
    assert_eq!(None, old.chain().top_pair());
    assert_eq!(Some(test_pair()), new.chain().top_pair());
    assert_eq!(1, new.actions().len());
}

#[test]
fn error_messages_in_json() {
    assert_eq!(
        "{\"error\":\"Caller does not have Capability to make that call\"}",
        HolochainError::DoesNotHaveCapabilityToken.to_json()
    );
    assert_eq!("{\"error\":\"DNA is missing\"}", HolochainError::DnaMissing.to_json());
}
