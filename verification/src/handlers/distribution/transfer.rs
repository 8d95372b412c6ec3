use vstd::prelude::*;

verus! {

/// What became of the token transfer that an operation asked for. The
/// transfer itself is made by the token ledger, outside this library: an
/// operation first says how much has to move, the caller has the ledger move
/// it, and the operation is then settled with the ledger's answer.
#[derive(Clone, Copy, Debug, PartialEq, Eq, Structural)]
pub enum TransferOutcome {
    /// No transfer was made.
    NotRequested,
    /// The ledger moved the tokens.
    Completed,
    /// The ledger refused the transfer.
    Failed,
}

impl TransferOutcome {
    /// An operation that has to move `amount` tokens can go ahead: either
    /// nothing has to move, or the ledger has moved it.
    pub open spec fn covers(self, amount: u64) -> bool {
        amount == 0 || self == TransferOutcome::Completed
    }

    /// Executable form of [`TransferOutcome::covers`].
    pub fn settles(self, amount: u64) -> (covered: bool)
        ensures
            covered == self.covers(amount),
    {
        amount == 0 || matches!(self, TransferOutcome::Completed)
    }
}

} // verus!
