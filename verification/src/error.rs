use vstd::prelude::*;

verus! {

/// The reasons the vault refuses an operation. Every failure aborts the whole
/// operation: an `Err` carries no balance change and no record write.
#[derive(Clone, Copy, Debug, PartialEq, Eq, Structural)]
pub enum VaultError {
    /// Fewer accounts were supplied than the operation needs.
    AccountArityError,
    /// The depositor or withdrawer is not a signer, an account has the wrong
    /// owner, or the call was routed to the wrong subsystem identity.
    AuthorizationError,
    /// An instruction payload or a stored record has the wrong length, or the
    /// instruction discriminator is unknown.
    MalformedInput,
    /// An amount breaks the balance policy: zero, below the minimum-balance
    /// threshold on first use, or above the current vault balance.
    PolicyViolation,
    /// A supplied account address does not match the deterministic derivation
    /// from its seeds.
    AddressDerivationMismatch,
}

} // verus!
