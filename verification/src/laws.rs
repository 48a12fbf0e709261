//! The laws of the correlation layer, stated over the mathematical model of
//! [`crate::state::NetworkState`] and proved once and for all.

use vstd::prelude::*;

use crate::state::{
    spec_get_entry, spec_handle_get_result, spec_init_network, spec_initialized, spec_lookup,
    spec_send_result, spec_timeout, StateModel,
};
use crate::types::{LookupError, LookupOutcome};

verus! {

/// One action of the host's dispatch engine, as seen by this core. The
/// engine applies actions one at a time, in arrival order; a run of the core
/// is therefore a sequence of these.
pub enum NetworkAction {
    /// Install the network handle with its identifying fields.
    InitNetwork { dna_hash: String, agent_id: String },
    /// Initiate a lookup for an address.
    GetEntry { address: String },
    /// The host reports its send attempt for an initiated lookup.
    SendResult { address: String, send_result: Result<(), String> },
    /// A timeout fired for an address.
    GetEntryTimeout { address: String },
    /// A reply arrived for an address, carrying the optional payload.
    HandleGetResult { address: String, payload: Option<String> },
}

/// The state reached by applying one action.
pub open spec fn step(s: StateModel, action: NetworkAction) -> StateModel {
    match action {
        NetworkAction::InitNetwork { dna_hash, agent_id } => spec_init_network(
            s,
            dna_hash,
            agent_id,
        ),
        NetworkAction::GetEntry { address } => spec_get_entry(s, address@),
        NetworkAction::SendResult { address, send_result } => spec_send_result(
            s,
            address@,
            send_result,
        ),
        NetworkAction::GetEntryTimeout { address } => spec_timeout(s, address@),
        NetworkAction::HandleGetResult { address, payload } => spec_handle_get_result(
            s,
            address@,
            payload,
        ),
    }
}

/// The state reached by applying a sequence of actions in order.
pub open spec fn run(s: StateModel, actions: Seq<NetworkAction>) -> StateModel
    decreases actions.len(),
{
    if actions.len() == 0 {
        s
    } else {
        step(run(s, actions.drop_last()), actions.last())
    }
}

/// Whether an action can create or rewrite the table entry for `address`:
/// only initiating a lookup there, recording its send attempt, or a reply
/// for it can. A timeout never creates an entry, and installing the handle
/// touches no entry at all.
pub open spec fn creates_entry_for(action: NetworkAction, address: Seq<char>) -> bool {
    match action {
        NetworkAction::GetEntry { address: a } => a@ == address,
        NetworkAction::SendResult { address: a, .. } => a@ == address,
        NetworkAction::HandleGetResult { address: a, .. } => a@ == address,
        NetworkAction::InitNetwork { .. } => false,
        NetworkAction::GetEntryTimeout { .. } => false,
    }
}

/// Law: an address for which no lookup was ever initiated reads as absent.
/// From any state in which the address is absent, any sequence of actions
/// none of which initiates a lookup for it, records a send attempt for it,
/// or delivers a reply for it — timeouts for it included — leaves it absent.
pub proof fn lemma_never_initiated_absent(
    s: StateModel,
    actions: Seq<NetworkAction>,
    address: Seq<char>,
)
    requires
        spec_lookup(s, address) is None,
        forall|i: int|
            0 <= i < actions.len() ==> !creates_entry_for(#[trigger] actions[i], address),
    ensures
        spec_lookup(run(s, actions), address) is None,
    decreases actions.len(),
{
    if actions.len() > 0 {
        let prefix = actions.drop_last();
        assert forall|i: int|
            0 <= i < prefix.len() implies !creates_entry_for(#[trigger] prefix[i], address) by {
            assert(prefix[i] == actions[i]);
        }
        lemma_never_initiated_absent(s, prefix, address);
        assert(!creates_entry_for(actions[actions.len() - 1], address));
    }
}

/// Law: initiating a lookup while the network handle is absent settles the
/// entry immediately as a `NetworkNotInitialized` failure.
pub proof fn lemma_initiate_uninitialized(s: StateModel, address: Seq<char>)
    requires
        !spec_initialized(s),
    ensures
        spec_lookup(spec_get_entry(s, address), address) == Some(
            LookupOutcome::Failed(LookupError::NetworkNotInitialized),
        ),
{
}

/// Law: initiating a lookup with a valid handle and a successful send leaves
/// the entry pending.
pub proof fn lemma_initiate_then_send_ok(s: StateModel, address: Seq<char>)
    requires
        spec_initialized(s),
    ensures
        spec_lookup(
            spec_send_result(spec_get_entry(s, address), address, Result::<(), String>::Ok(())),
            address,
        ) == Some(LookupOutcome::Pending),
{
}

/// Law: a timeout on a pending entry settles it as a `Timeout` failure.
pub proof fn lemma_timeout_on_pending(s: StateModel, address: Seq<char>)
    requires
        spec_lookup(s, address) == Some(LookupOutcome::Pending),
    ensures
        spec_lookup(spec_timeout(s, address), address) == Some(
            LookupOutcome::Failed(LookupError::Timeout),
        ),
{
}

/// Law: a timeout on an absent entry changes nothing at all; in particular
/// the entry stays absent.
pub proof fn lemma_timeout_on_absent(s: StateModel, address: Seq<char>)
    requires
        spec_lookup(s, address) is None,
    ensures
        spec_timeout(s, address) == s,
{
}

/// Law: a timeout on a settled entry — success or failure — changes nothing
/// at all. This is the race guard: a reply processed first is never undone
/// by a later-processed timeout.
pub proof fn lemma_timeout_on_settled(s: StateModel, address: Seq<char>)
    requires
        spec_lookup(s, address) matches Some(outcome) && !(outcome is Pending),
    ensures
        spec_timeout(s, address) == s,
{
}

/// Law: a timeout on a succeeded entry leaves its payload untouched.
pub proof fn lemma_timeout_on_succeeded(s: StateModel, address: Seq<char>, payload: Option<String>)
    requires
        spec_lookup(s, address) == Some(LookupOutcome::Succeeded(payload)),
    ensures
        spec_lookup(spec_timeout(s, address), address) == Some(LookupOutcome::Succeeded(payload)),
{
}

/// Law: a reply settles the entry as a success whatever its prior state —
/// absent, pending, failed or succeeded — always overwriting.
pub proof fn lemma_reply_always_settles(s: StateModel, address: Seq<char>, payload: Option<String>)
    ensures
        spec_lookup(spec_handle_get_result(s, address, payload), address) == Some(
            LookupOutcome::Succeeded(payload),
        ),
{
}

/// Law: once an entry holds a success, no timeout — for this or any other
/// address — changes what a lookup of it returns.
pub proof fn lemma_success_immune_to_timeout(s: StateModel, address: Seq<char>, other: Seq<char>)
    requires
        spec_lookup(s, address) matches Some(outcome) && outcome is Succeeded,
    ensures
        spec_lookup(spec_timeout(s, other), address) == spec_lookup(s, address),
{
}

/// Law: a reply followed by a timeout for the same address still reads as
/// the reply's success, payload unchanged.
pub proof fn lemma_reply_then_timeout(s: StateModel, address: Seq<char>, payload: Option<String>)
    ensures
        spec_lookup(
            spec_timeout(spec_handle_get_result(s, address, payload), address),
            address,
        ) == Some(LookupOutcome::Succeeded(payload)),
{
}

} // verus!
