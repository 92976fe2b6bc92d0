use vstd::prelude::*;

verus! {

/// The kinds of failure that the daemon's core reports to its caller.
#[derive(Debug, Clone, Copy, PartialEq, Eq, Structural)]
pub enum TofndError {
    /// The secret seed was asked for before it was established.
    Uninitialized,
    /// Key derivation rejected its inputs.
    Derivation,
    /// The identifier is already reserved or committed.
    DuplicateKey,
    /// A commit named a slot that is not reserved-but-empty.
    InvalidReservation,
    /// The signing key could not be encoded.
    Serialization,
    /// A startup argument could not be parsed.
    Parse,
}

} // verus!
