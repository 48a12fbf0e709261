//! The network state, its mathematical model, and the reducers that mutate
//! the pending-result table.
//!
//! The host's dispatch engine applies these reducers one at a time, in
//! arrival order; the core relies entirely on that single-writer guarantee
//! and takes no lock around the table. The connection object itself is owned
//! by the host: initiating a lookup returns the request to transmit, and the
//! host reports the outcome of its send attempt back through
//! [`reduce_send_result`].

use vstd::hash_map::StringHashMap;
use vstd::prelude::*;

use crate::types::{Address, LookupError, LookupOutcome, LookupRequest};

verus! {

/// The network-facing slice of the host state: the identifying fields of the
/// network handle, whether the host has installed an outbound connection,
/// and the pending-result table.
pub struct NetworkState {
    /// Opaque identifier of the local context, set when the network is
    /// initialized.
    pub dna_hash: Option<String>,
    /// Opaque identifier of the local participant, set when the network is
    /// initialized.
    pub agent_id: Option<String>,
    /// Whether the host has installed an outbound connection. The connection
    /// object itself never enters this core; only its presence matters here.
    pub network_ready: bool,
    /// The pending-result table: content address, in canonical string form,
    /// to the recorded state of its lookup.
    pub get_entry_results: StringHashMap<LookupOutcome>,
}

/// The mathematical model of [`NetworkState`]: the same fields, with the
/// pending-result table abstracted to a map from address to recorded state.
#[verifier::ext_equal]
pub struct StateModel {
    pub dna_hash: Option<String>,
    pub agent_id: Option<String>,
    pub network_ready: bool,
    pub results: Map<Seq<char>, LookupOutcome>,
}

impl View for NetworkState {
    type V = StateModel;

    open spec fn view(&self) -> StateModel {
        StateModel {
            dna_hash: self.dna_hash,
            agent_id: self.agent_id,
            network_ready: self.network_ready,
            results: self.get_entry_results@,
        }
    }
}

/// The network handle is initialized when the connection is present and both
/// identifying fields are set.
pub open spec fn spec_initialized(s: StateModel) -> bool {
    s.network_ready && s.dna_hash is Some && s.agent_id is Some
}

/// Reading the pending-result table: `None` models "never requested".
pub open spec fn spec_lookup(s: StateModel, address: Seq<char>) -> Option<LookupOutcome> {
    if s.results.contains_key(address) {
        Some(s.results[address])
    } else {
        None
    }
}

/// Installing the network handle: both identifying fields are set and the
/// connection is marked present; the table is untouched.
pub open spec fn spec_init_network(s: StateModel, dna_hash: String, agent_id: String) -> StateModel {
    StateModel { dna_hash: Some(dna_hash), agent_id: Some(agent_id), network_ready: true, ..s }
}

/// Initiating a lookup. With an uninitialized handle the entry settles
/// immediately as a `NetworkNotInitialized` failure and nothing is sent.
/// With an initialized handle the table is untouched until the host reports
/// its send attempt (see [`spec_send_result`]).
pub open spec fn spec_get_entry(s: StateModel, address: Seq<char>) -> StateModel {
    if spec_initialized(s) {
        s
    } else {
        StateModel {
            results: s.results.insert(
                address,
                LookupOutcome::Failed(LookupError::NetworkNotInitialized),
            ),
            ..s
        }
    }
}

/// Recording the host's send attempt: a successful send marks the entry
/// pending, overwriting any prior settled state by design (re-issuing a
/// lookup restarts its observation); a failed send settles the entry with a
/// `SendError` carrying the transport's error text.
pub open spec fn spec_send_result(
    s: StateModel,
    address: Seq<char>,
    send_result: Result<(), String>,
) -> StateModel {
    match send_result {
        Ok(_) => StateModel { results: s.results.insert(address, LookupOutcome::Pending), ..s },
        Err(error) => StateModel {
            results: s.results.insert(
                address,
                LookupOutcome::Failed(LookupError::SendError(error)),
            ),
            ..s
        },
    }
}

/// Processing a timeout: only a still-pending entry settles as a `Timeout`
/// failure; an absent or already settled entry is left exactly as it is.
/// This guard is what keeps a reply that was processed first from being
/// undone by a later-processed timeout.
pub open spec fn spec_timeout(s: StateModel, address: Seq<char>) -> StateModel {
    if s.results.contains_key(address) && s.results[address] is Pending {
        StateModel {
            results: s.results.insert(address, LookupOutcome::Failed(LookupError::Timeout)),
            ..s
        }
    } else {
        s
    }
}

/// Processing a reply: the entry settles as a success, unconditionally
/// replacing whatever was there. Success always wins.
pub open spec fn spec_handle_get_result(
    s: StateModel,
    address: Seq<char>,
    payload: Option<String>,
) -> StateModel {
    StateModel { results: s.results.insert(address, LookupOutcome::Succeeded(payload)), ..s }
}

impl NetworkState {
    /// A fresh state: no handle, no identifying fields, an empty table.
    pub fn new() -> (s: NetworkState)
        ensures
            s@ == (StateModel {
                dna_hash: None,
                agent_id: None,
                network_ready: false,
                results: Map::empty(),
            }),
    {
        NetworkState {
            dna_hash: None,
            agent_id: None,
            network_ready: false,
            get_entry_results: StringHashMap::new(),
        }
    }

    /// Read-only lookup into the pending-result table. `None` means the
    /// address was never requested; a present entry is pending, succeeded or
    /// failed.
    pub fn lookup(&self, address: &Address) -> (result: Option<&LookupOutcome>)
        ensures
            match result {
                Some(outcome) => spec_lookup(self@, address@) == Some(*outcome),
                None => spec_lookup(self@, address@) is None,
            },
    {
        self.get_entry_results.get(address.key.as_str())
    }
}

/// Verifies that the network handle is present and carries both identifying
/// fields; the precondition of every send.
pub fn initialized(state: &NetworkState) -> (r: Result<(), LookupError>)
    ensures
        r is Ok <==> spec_initialized(state@),
        r matches Err(error) ==> error == LookupError::NetworkNotInitialized,
{
    if state.network_ready && state.dna_hash.is_some() && state.agent_id.is_some() {
        Ok(())
    } else {
        Err(LookupError::NetworkNotInitialized)
    }
}

/// Builds the outbound lookup request for `address`, or reports the handle
/// as uninitialized. The correlation token is a fixed placeholder: replies
/// are matched purely by address.
fn inner(state: &NetworkState, address: &Address) -> (r: Result<LookupRequest, LookupError>)
    ensures
        spec_initialized(state@) ==> (r matches Ok(request) && request.msg_id@ == "?"@
            && Some(request.dna_hash) == state.dna_hash
            && Some(request.from_agent_id) == state.agent_id
            && request.address@ == address@),
        !spec_initialized(state@) ==> (r matches Err(error) && error
            == LookupError::NetworkNotInitialized),
{
    match initialized(state) {
        Err(error) => Err(error),
        Ok(()) => match (&state.dna_hash, &state.agent_id) {
            (Some(dna_hash), Some(agent_id)) => Ok(
                LookupRequest {
                    msg_id: "?".to_owned(),
                    dna_hash: dna_hash.clone(),
                    from_agent_id: agent_id.clone(),
                    address: address.canonical_string(),
                },
            ),
            // The handle was just verified, so both fields are present.
            _ => Err(LookupError::NetworkNotInitialized),
        },
    }
}

/// Reduces an initiate-lookup action. With an uninitialized handle the entry
/// for `address` settles immediately as `Failed(NetworkNotInitialized)` and
/// no request is returned, so no send is attempted. With an initialized
/// handle the built request is returned for the host to transmit exactly
/// once; the host then reports the attempt through [`reduce_send_result`].
pub fn reduce_get_entry(state: &mut NetworkState, address: &Address) -> (request: Option<
    LookupRequest,
>)
    ensures
        final(state)@ == spec_get_entry(old(state)@, address@),
        !spec_initialized(old(state)@) ==> request is None,
        spec_initialized(old(state)@) ==> (request matches Some(r) && r.msg_id@ == "?"@
            && Some(r.dna_hash) == old(state).dna_hash
            && Some(r.from_agent_id) == old(state).agent_id
            && r.address@ == address@),
{
    match inner(state, address) {
        Ok(request) => Some(request),
        Err(error) => {
            state.get_entry_results.insert(address.key.clone(), LookupOutcome::Failed(error));
            None
        },
    }
}

/// Records the outcome of the host's send attempt for an initiated lookup:
/// a successful send marks the entry pending, a failed send settles it as
/// `Failed(SendError(text))`.
pub fn reduce_send_result(
    state: &mut NetworkState,
    address: &Address,
    send_result: Result<(), String>,
)
    ensures
        final(state)@ == spec_send_result(old(state)@, address@, send_result),
{
    match send_result {
        Ok(()) => {
            state.get_entry_results.insert(address.key.clone(), LookupOutcome::Pending);
        },
        Err(error) => {
            state.get_entry_results.insert(
                address.key.clone(),
                LookupOutcome::Failed(LookupError::SendError(error)),
            );
        },
    }
}

/// Reduces a timeout action: a still-pending entry settles as
/// `Failed(Timeout)`; an absent or settled entry is left untouched, so a
/// reply that was processed first is never undone.
pub fn reduce_get_entry_timeout(state: &mut NetworkState, address: &Address)
    ensures
        final(state)@ == spec_timeout(old(state)@, address@),
        spec_lookup(old(state)@, address@) == Some(LookupOutcome::Pending) ==> spec_lookup(
            final(state)@,
            address@,
        ) == Some(LookupOutcome::Failed(LookupError::Timeout)),
        spec_lookup(old(state)@, address@) != Some(LookupOutcome::Pending) ==> final(state)@
            == old(state)@,
{
    let entry_is_pending = match state.get_entry_results.get(address.key.as_str()) {
        Some(outcome) => match outcome {
            LookupOutcome::Pending => true,
            _ => false,
        },
        None => false,
    };
    if entry_is_pending {
        state.get_entry_results.insert(
            address.key.clone(),
            LookupOutcome::Failed(LookupError::Timeout),
        );
    }
}

/// Reduces a reply action: the entry for `address` settles as
/// `Succeeded(payload)`, unconditionally replacing whatever was there
/// (absent, pending, a prior failure or a prior success).
pub fn reduce_handle_get_result(
    state: &mut NetworkState,
    address: &Address,
    payload: Option<String>,
)
    ensures
        final(state)@ == spec_handle_get_result(old(state)@, address@, payload),
        spec_lookup(final(state)@, address@) == Some(LookupOutcome::Succeeded(payload)),
{
    state.get_entry_results.insert(address.key.clone(), LookupOutcome::Succeeded(payload));
}

/// Installs the network handle: sets both identifying fields and marks the
/// connection present. The pending-result table is untouched.
pub fn reduce_init_network(state: &mut NetworkState, dna_hash: String, agent_id: String)
    ensures
        final(state)@ == spec_init_network(old(state)@, dna_hash, agent_id),
{
    state.dna_hash = Some(dna_hash);
    state.agent_id = Some(agent_id);
    state.network_ready = true;
}

} // verus!
