//! The reducer tests: initiating a lookup without and with an initialized
//! network handle, and the timeout tie-break against an arrived reply.

use entry_lookup::state::{
    reduce_get_entry, reduce_get_entry_timeout, reduce_handle_get_result, reduce_init_network,
    reduce_send_result, NetworkState,
};
use entry_lookup::types::{Address, LookupError, LookupOutcome};

fn test_address() -> Address {
    Address::new(String::from("QmTestEntryAddress"))
}

#[test]
pub fn reduce_get_entry_without_network_initialized() {
    let mut state = NetworkState::new();
    // The host context knows its agent, but the network was never initialized.
    state.agent_id = Some(String::from("alice"));

    let address = test_address();
    let request = reduce_get_entry(&mut state, &address);

    assert!(request.is_none());
    match state.lookup(&address) {
        Some(LookupOutcome::Failed(error)) => {
            assert_eq!(*error, LookupError::NetworkNotInitialized);
            assert_eq!(error.message(), String::from("Network not initialized"));
        }
        other => panic!("expected a settled failure, found {:?}", other),
    }
}

#[test]
pub fn reduce_get_entry_test() {
    let mut state = NetworkState::new();
    state.agent_id = Some(String::from("alice"));
    reduce_init_network(&mut state, String::from("abcd"), String::from("abcd"));

    let address = test_address();
    let request = reduce_get_entry(&mut state, &address)
        .expect("the handle is initialized, so a request must be built");
    assert_eq!(request.dna_hash, String::from("abcd"));
    assert_eq!(request.from_agent_id, String::from("abcd"));

    // The host's send attempt succeeds.
    reduce_send_result(&mut state, &address, Ok(()));

    assert_eq!(state.lookup(&address), Some(&LookupOutcome::Pending));
}

#[test]
pub fn reduce_get_entry_timeout_test() {
    let mut state = NetworkState::new();
    state.agent_id = Some(String::from("alice"));
    reduce_init_network(&mut state, String::from("abcd"), String::from("abcd"));

    let address = test_address();
    let request = reduce_get_entry(&mut state, &address);
    assert!(request.is_some());
    reduce_send_result(&mut state, &address, Ok(()));
    assert_eq!(state.lookup(&address), Some(&LookupOutcome::Pending));

    reduce_get_entry_timeout(&mut state, &address);
    assert_eq!(
        state.lookup(&address),
        Some(&LookupOutcome::Failed(LookupError::Timeout))
    );

    // A reply still arrives after the timeout and overwrites the failure.
    let payload = Some(String::from("test entry content"));
    reduce_handle_get_result(&mut state, &address, payload.clone());
    assert_eq!(
        state.lookup(&address),
        Some(&LookupOutcome::Succeeded(payload.clone()))
    );

    // A second timeout must not overwrite the settled success.
    reduce_get_entry_timeout(&mut state, &address);
    assert_eq!(
        state.lookup(&address),
        Some(&LookupOutcome::Succeeded(payload))
    );
}
