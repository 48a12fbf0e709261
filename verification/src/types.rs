//! The data entities of the correlation layer: content addresses, lookup
//! outcomes and the outbound lookup request.

use vstd::prelude::*;

verus! {

/// An opaque, immutable, comparable identifier for a content-addressed
/// record, typically derived from a hash of the record. It keys the
/// pending-result table and is never mutated.
#[derive(Debug, Clone, PartialEq, Eq)]
pub struct Address {
    pub key: String,
}

impl View for Address {
    type V = Seq<char>;

    open spec fn view(&self) -> Seq<char> {
        self.key@
    }
}

impl Address {
    pub fn new(key: String) -> (address: Address)
        ensures
            address@ == key@,
    {
        Address { key }
    }

    /// The canonical string form of the address, as it is carried in an
    /// outbound lookup request.
    pub fn canonical_string(&self) -> (s: String)
        ensures
            s@ == self@,
    {
        self.key.clone()
    }
}

/// Why a lookup settled without a successful reply. Every failure is stored
/// in the pending-result table as a settled outcome; none is raised to the
/// caller.
#[derive(Debug, Clone, PartialEq, Eq)]
pub enum LookupError {
    /// The network handle, or one of its required fields, was absent when
    /// the lookup was initiated. No send is attempted in that case.
    NetworkNotInitialized,
    /// The send attempt failed; carries the transport's error text.
    SendError(String),
    /// No reply was observed before the timeout action was processed.
    Timeout,
}

impl LookupError {
    /// A short description of the failure.
    pub fn message(&self) -> (s: String)
        ensures
            self is NetworkNotInitialized ==> s@ == "Network not initialized"@,
            self is Timeout ==> s@ == "Timeout"@,
            self matches LookupError::SendError(text) ==> s@ == text@,
    {
        match self {
            LookupError::NetworkNotInitialized => "Network not initialized".to_owned(),
            LookupError::Timeout => "Timeout".to_owned(),
            LookupError::SendError(text) => text.clone(),
        }
    }
}

/// The recorded state of one lookup in the pending-result table. An address
/// with no entry at all was never requested; the table never stores a value
/// for such an address.
#[derive(Debug, Clone, PartialEq, Eq)]
pub enum LookupOutcome {
    /// The request was sent and no answer has been observed yet.
    Pending,
    /// A reply arrived. The looked-up record may legitimately not exist, so
    /// the payload is itself optional.
    Succeeded(Option<String>),
    /// The lookup settled with one of the failures of [`LookupError`].
    Failed(LookupError),
}

/// The outbound lookup message: a correlation token (`msg_id`, not used for
/// matching, which is purely by address), the identifying fields of the
/// network handle, and the target address in canonical string form. The
/// host serializes and transmits it; this core only builds it.
#[derive(Debug, Clone, PartialEq, Eq)]
pub struct LookupRequest {
    pub msg_id: String,
    pub dna_hash: String,
    pub from_agent_id: String,
    pub address: String,
}

} // verus!
