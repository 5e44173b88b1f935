use vstd::prelude::*;

verus! {

/// The stable error kinds of the escrow core. Every failing operation
/// reports exactly one of these and leaves all state unchanged.
#[derive(Clone, Copy, Debug, PartialEq, Eq, Structural)]
pub enum EscrowError {
    /// A record already exists for the (guest, apartment) pair.
    DuplicateEscrow,
    /// The caller cannot prove control of the identity the action needs.
    UnauthorizedSigner,
    /// The record's funds were already released once.
    AlreadyReleased,
    /// The ledger time has not yet reached the record's rent time.
    TooEarly,
    /// The token movement could not complete.
    TransferFailed,
    /// The custody authority re-derived at release does not match the one
    /// the custody account was bound to at creation.
    AuthorityMismatch,
}

} // verus!
