use vstd::prelude::*;

verus! {

/// Why an initialization, a validation or a transfer was refused.
#[derive(Debug, Clone, Copy, PartialEq, Eq, Structural)]
pub enum PoolError {
    /// The pool record's address is not the canonical address derived from
    /// its seeds.
    SeedBindingViolation,
    /// An account passed in differs from the one the pool record holds.
    RelationMismatch,
    /// The recorded discriminator does not reproduce the pool's address.
    DiscriminatorMismatch,
    /// No discriminator yields a derived address for the seeds.
    NoValidDiscriminator,
    /// The ledger refused the transfer: wrong or missing signer, unknown
    /// account, owner or mint mismatch, or a balance that would overflow.
    TransferRejected,
    /// The source account holds less than the amount.
    InsufficientBalance,
}

} // verus!
