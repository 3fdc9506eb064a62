//! Properties that relate the instructions of one flash loan.

use vstd::prelude::*;

use crate::accounts::{balance_of, AccountView};
use crate::error::FlashLoanError;
use crate::ids::spec_instructions_id;
use crate::ledger::{ledger_encodes, record, record_encodes, LoanData};
use crate::loan::{amount_count, fee_on, loan_request_error, payload_well_formed, Loan, loan_accounts_error};
use crate::repay::Repay;

verus! {

/// A `Repay` that structurally matches a `Loan`: it reads the ledger that the
/// loan wrote, and lists the loan's protocol-side accounts in the same order,
/// each with a readable balance.
pub open spec fn repay_matches_loan(loan: &Loan, ledger: Seq<u8>, repay: &Repay) -> bool {
    &&& ledger_encodes(ledger, loan.entries())
    &&& repay.ledger() == ledger
    &&& repay.legs() == loan.legs()
    &&& forall|i: int| 0 <= i < loan.legs() ==> #[trigger] repay.accounts.token_accounts@[i].key
        == loan.accounts.token_accounts@[2 * i].key
    &&& forall|i: int| 0 <= i < loan.legs() ==> balance_of(#[trigger] repay.accounts.token_accounts@[i]) is Some
}

/// Whether every asset account is back to at least its balance before the
/// loan plus the fee on what was borrowed from it.
pub open spec fn all_restored_with_fee(loan: &Loan, repay: &Repay) -> bool {
    forall|i: int|
        0 <= i < loan.legs() ==> balance_of(#[trigger] repay.accounts.token_accounts@[i])->Some_0
            >= balance_of(loan.accounts.token_accounts@[2 * i])->Some_0 + fee_on(
            loan.instruction_data.amounts@[i] as nat,
            loan.instruction_data.fee as nat,
        )
}

/// A loan whose ledger was written, followed by a matching `Repay`: the
/// repayment succeeds exactly when every asset account holds at least its
/// pre-loan balance plus the fee on its amount.
pub proof fn lemma_repay_succeeds_iff_restored(loan: &Loan, ledger: Seq<u8>, repay: &Repay)
    requires
        loan.wf(),
        loan.all_legs_ok(),
        repay_matches_loan(loan, ledger, repay),
    ensures
        repay.outcome() is Ok <==> all_restored_with_fee(loan, repay),
        repay.outcome() is Ok ==> repay.outcome() == Ok::<u64, FlashLoanError>(
            repay.accounts.loan.lamports,
        ),
{
    let n = loan.legs();
    assert(ledger.len() == n * 40);
    assert(ledger.len() % 40 == 0 && ledger.len() / 40 == n);
    assert forall|i: int| 0 <= i < n implies (repay.leg_error(i) is None
        <==> balance_of(#[trigger] repay.accounts.token_accounts@[i])->Some_0 >= balance_of(
        loan.accounts.token_accounts@[2 * i],
    )->Some_0 + fee_on(
        loan.instruction_data.amounts@[i] as nat,
        loan.instruction_data.fee as nat,
    )) by {
        assert(record_encodes(record(ledger, i), loan.entries()[i]));
        assert(loan.leg(i) is Ok);
    }
    repay.lemma_settle_none(0);
}

/// A `Loan` whose ledger address already holds data is refused as such,
/// whatever its payload, once its account list has the right shape.
pub proof fn lemma_nonempty_ledger_refused(data: Seq<u8>, accounts: Seq<AccountView>)
    requires
        accounts.len() >= 8,
        (accounts.len() - 6) % 2 == 0,
        accounts[3].key@ == spec_instructions_id(),
        accounts[2].data@.len() != 0,
    ensures
        loan_request_error(data, accounts) == Some(FlashLoanError::LedgerNotEmpty),
{
}

/// A `Loan` whose number of amounts is not half its number of asset accounts
/// is refused as an arity mismatch, before any transfer could be made.
pub proof fn lemma_arity_mismatch_refused(data: Seq<u8>, accounts: Seq<AccountView>)
    requires
        loan_accounts_error(accounts) is None,
        payload_well_formed(data),
        amount_count(data) != (accounts.len() - 6) / 2,
    ensures
        loan_request_error(data, accounts) == Some(FlashLoanError::ArityMismatch),
{
}

/// A matching `Repay` in which some asset account is short fails as an
/// insufficient repayment, and so returns nothing to act on.
pub proof fn lemma_one_short_fails_all(loan: &Loan, ledger: Seq<u8>, repay: &Repay)
    requires
        loan.wf(),
        loan.all_legs_ok(),
        repay_matches_loan(loan, ledger, repay),
        exists|k: int|
            0 <= k < loan.legs() && balance_of(#[trigger] repay.accounts.token_accounts@[k])->Some_0
                < balance_of(loan.accounts.token_accounts@[2 * k])->Some_0 + fee_on(
                loan.instruction_data.amounts@[k] as nat,
                loan.instruction_data.fee as nat,
            ),
    ensures
        repay.outcome() == Err::<u64, FlashLoanError>(FlashLoanError::InsufficientRepayment),
{
    let n = loan.legs();
    assert(ledger.len() % 40 == 0 && ledger.len() / 40 == n);
    assert forall|i: int| 0 <= i < n implies (#[trigger] repay.leg_error(i) is None
        || repay.leg_error(i) == Some(FlashLoanError::InsufficientRepayment)) by {
        assert(record_encodes(record(ledger, i), loan.entries()[i]));
        assert(repay.accounts.token_accounts@[i].key == loan.accounts.token_accounts@[2 * i].key);
    }
    lemma_repay_succeeds_iff_restored(loan, ledger, repay);
    lemma_scan_finds_shortfall(repay, 0);
}

/// A ledger of entries is exactly `entry_count * 40` bytes, so the count is
/// recovered by division; a size that is not a multiple of 40 holds no
/// entries and `Repay` refuses it.
pub proof fn lemma_ledger_size_exact(ledger: Seq<u8>, entries: Seq<LoanData>, repay: &Repay)
    ensures
        ledger_encodes(ledger, entries) ==> ledger.len() == entries.len() * 40 && ledger.len() % 40
            == 0 && ledger.len() / 40 == entries.len(),
        ledger.len() % 40 != 0 ==> !ledger_encodes(ledger, entries),
        repay.ledger().len() % 40 != 0 ==> repay.outcome() == Err::<u64, FlashLoanError>(
            FlashLoanError::MalformedLedger,
        ),
{
}

/// Where every leg is settled or short, a scan that finds anything finds a
/// shortfall.
proof fn lemma_scan_finds_shortfall(repay: &Repay, i: int)
    requires
        0 <= i <= repay.legs(),
        forall|j: int| 0 <= j < repay.legs() ==> (#[trigger] repay.leg_error(j) is None
            || repay.leg_error(j) == Some(FlashLoanError::InsufficientRepayment)),
    ensures
        repay.settle_from(i) is None || repay.settle_from(i) == Some(
            FlashLoanError::InsufficientRepayment,
        ),
    decreases repay.legs() - i,
{
    if i < repay.legs() {
        lemma_scan_finds_shortfall(repay, i + 1);
    }
}

} // verus!
