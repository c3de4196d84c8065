//! The errors that reads of remote state report.
use vstd::prelude::*;

use crate::primitives::B256;

verus! {

/// A round trip to the remote node that failed: the connection, the protocol
/// or the shape of the response. The message is the wire client's own.
#[derive(Clone, Debug, PartialEq, Eq)]
pub struct TransportError {
    pub message: String,
}

/// Why a read of state failed.
#[derive(Clone, Debug, PartialEq, Eq)]
pub enum StateError {
    /// The round trip to the remote node failed.
    Remote(TransportError),
    /// Code was asked for by its hash alone, which the remote node cannot serve;
    /// code comes with the account that holds it.
    InvalidCodeHash(B256),
}

} // verus!
