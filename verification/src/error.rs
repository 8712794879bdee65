//! The ways a request can fail.

use vstd::prelude::*;

verus! {

/// Why a lock or an unlock was refused.
#[derive(Clone, Copy, Debug, PartialEq, Eq, Structural)]
pub enum StakingError {
    /// The acting party is neither the owner of the asset nor the administrator of the pool,
    /// or the owner named in the request is not the owner on record.
    InvalidAdmin,
    /// The metadata names another collection and lists no creator that matches.
    IneligibleCollection,
    /// The metadata cannot be read, or lacks its collection or its creator list.
    MetadataParseError,
    /// A registry turned a call down, or the accounts of the request do not fit together
    /// as the registry asks.
    ExternalCallFailed,
}

} // verus!
