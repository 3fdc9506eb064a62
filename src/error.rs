//! Why an instruction of the flash-loan program is refused.

use vstd::prelude::*;

verus! {

/// Every way in which `Loan` or `Repay` can fail; each aborts the whole
/// transaction.
#[derive(Clone, Copy, Debug, PartialEq, Eq, Structural)]
pub enum FlashLoanError {
    /// The number of amounts and of asset accounts disagree.
    ArityMismatch,
    /// The ledger address already holds data.
    LedgerNotEmpty,
    /// The account given as the transaction-introspection facility is another one.
    UnsupportedIntrospectionSource,
    /// `balance + amount * fee_bps / 10000` does not fit in 64 bits.
    FeeOverflow,
    /// The transaction does not end with a `Repay` of this program on this ledger.
    MissingOrInvalidRepay,
    /// A `Repay` asset account is not the one that the ledger lists at its position.
    OutOfOrderOrWrongAccount,
    /// An asset account holds less than its recorded obligation.
    InsufficientRepayment,
    /// The payload is too short, or its amounts are not whole 8-byte words.
    InvalidInstructionData,
    /// Fewer accounts than the fixed leading ones.
    NotEnoughAccountKeys,
    /// The asset accounts are empty or not in pairs.
    InvalidAssetAccounts,
    /// An asset account's data is too short to hold a balance.
    InvalidTokenAccount,
    /// The ledger's size is not a whole number of entries.
    MalformedLedger,
    /// The leading discriminator byte names no instruction.
    UnknownInstruction,
}

} // verus!
