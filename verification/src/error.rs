//! Why a payload cannot be normalized.

use vstd::prelude::*;

verus! {

/// The ways in which normalization fails.
#[derive(Debug, Clone, Copy, PartialEq, Eq, Structural)]
pub enum ParseError {
    /// The parser found no message in the bytes at all.
    Malformed,
    /// The From header has an entry that carries no address string.
    MissingSenderAddress,
    /// An attachment declares no content type.
    UnresolvedContentType,
}

} // verus!
