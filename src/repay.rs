//! The `Repay` instruction: every recorded obligation must be met before the
//! ledger is closed and its storage deposit returned to the borrower.

use vstd::prelude::*;
use vstd::slice::slice_subrange;

use crate::accounts::{balance_of, token_balance, AccountView};
use crate::bytes::{keys_equal, le_value};
use crate::error::FlashLoanError;
use crate::ledger::{decode_ledger, record, LoanData};

verus! {

/// Number of fixed accounts before the asset accounts of `Repay`.
pub const REPAY_FIXED_ACCOUNTS: usize = 2;

/// The accounts of a `Repay`: borrower, ledger, then the protocol-side asset
/// accounts in the order that `Loan` used.
pub struct RepayAccounts<'a> {
    pub borrower: &'a AccountView,
    pub loan: &'a AccountView,
    pub token_accounts: &'a [AccountView],
}

impl<'a> RepayAccounts<'a> {
    /// Whether these are the roles that the account list `accounts` gives.
    pub open spec fn splits(&self, accounts: Seq<AccountView>) -> bool {
        &&& accounts.len() >= 2
        &&& *self.borrower == accounts[0]
        &&& *self.loan == accounts[1]
        &&& self.token_accounts@ == accounts.subrange(2, accounts.len() as int)
    }

    /// Splits a `Repay` account list into roles.
    pub fn try_from(accounts: &'a [AccountView]) -> (r: Result<RepayAccounts<'a>, FlashLoanError>)
        ensures
            accounts@.len() < 2 ==> r == Err::<RepayAccounts<'a>, FlashLoanError>(
                FlashLoanError::NotEnoughAccountKeys,
            ),
            accounts@.len() >= 2 ==> r is Ok && r->Ok_0.splits(accounts@),
    {
        let len = accounts.len();
        if len < REPAY_FIXED_ACCOUNTS {
            return Err(FlashLoanError::NotEnoughAccountKeys);
        }
        Ok(RepayAccounts {
            borrower: &accounts[0],
            loan: &accounts[1],
            token_accounts: slice_subrange(accounts, REPAY_FIXED_ACCOUNTS, len),
        })
    }
}

/// Why entry `i` of `ledger` is not settled by the asset account `account`,
/// if it is not.
pub open spec fn repay_leg_error(ledger: Seq<u8>, i: int, account: AccountView) -> Option<
    FlashLoanError,
> {
    if record(ledger, i).subrange(0, 32) != account.key@ {
        Some(FlashLoanError::OutOfOrderOrWrongAccount)
    } else {
        match balance_of(account) {
            None => Some(FlashLoanError::InvalidTokenAccount),
            Some(b) => if b < le_value(record(ledger, i).subrange(32, 40)) {
                Some(FlashLoanError::InsufficientRepayment)
            } else {
                None
            },
        }
    }
}

/// A parsed `Repay`.
pub struct Repay<'a> {
    pub accounts: RepayAccounts<'a>,
}

impl<'a> Repay<'a> {
    /// The ledger account's data.
    pub open spec fn ledger(&self) -> Seq<u8> {
        self.accounts.loan.data@
    }

    /// Number of asset accounts given.
    pub open spec fn legs(&self) -> int {
        self.accounts.token_accounts@.len() as int
    }

    /// Why leg `i` is not settled, if it is not.
    pub open spec fn leg_error(&self, i: int) -> Option<FlashLoanError> {
        repay_leg_error(self.ledger(), i, self.accounts.token_accounts@[i])
    }

    /// Whether the ledger is a whole number of entries, one per asset account.
    pub open spec fn shape_ok(&self) -> bool {
        &&& self.ledger().len() % 40 == 0
        &&& self.ledger().len() / 40 == self.legs()
    }

    /// The first unsettled leg's error, scanning from leg `i` on.
    pub open spec fn settle_from(&self, i: int) -> Option<FlashLoanError>
        decreases self.legs() - i,
    {
        if i >= self.legs() {
            None
        } else if self.leg_error(i) is Some {
            self.leg_error(i)
        } else {
            self.settle_from(i + 1)
        }
    }

    /// Whether every leg is settled.
    pub open spec fn all_settled(&self) -> bool {
        forall|i: int| 0 <= i < self.legs() ==> self.leg_error(i) is None
    }

    /// What `Repay` returns: the ledger's shape is checked first, then the
    /// legs in order; with every leg settled, the ledger's lamports.
    pub open spec fn outcome(&self) -> Result<u64, FlashLoanError> {
        if self.ledger().len() % 40 != 0 {
            Err(FlashLoanError::MalformedLedger)
        } else if self.ledger().len() / 40 != self.legs() {
            Err(FlashLoanError::ArityMismatch)
        } else {
            match self.settle_from(0) {
                Some(e) => Err(e),
                None => Ok(self.accounts.loan.lamports),
            }
        }
    }

    /// The scan from leg `i` finds nothing exactly when legs `i..` are settled.
    pub proof fn lemma_settle_none(&self, i: int)
        requires
            0 <= i <= self.legs(),
        ensures
            self.settle_from(i) is None <==> forall|j: int| i <= j < self.legs() ==> self.leg_error(j) is None,
        decreases self.legs() - i,
    {
        if i < self.legs() {
            self.lemma_settle_none(i + 1);
        }
    }

    /// Settled legs are skipped by the scan.
    pub proof fn lemma_settle_skip(&self, i: int, k: int)
        requires
            0 <= i <= k <= self.legs(),
            forall|j: int| i <= j < k ==> self.leg_error(j) is None,
        ensures
            self.settle_from(i) == self.settle_from(k),
        decreases k - i,
    {
        if i < k {
            self.lemma_settle_skip(i + 1, k);
        }
    }

    /// Parses a `Repay` from its account list; it has no payload.
    pub fn try_from(accounts: &'a [AccountView]) -> (r: Result<Repay<'a>, FlashLoanError>)
        ensures
            accounts@.len() < 2 ==> r == Err::<Repay<'a>, FlashLoanError>(
                FlashLoanError::NotEnoughAccountKeys,
            ),
            accounts@.len() >= 2 ==> r is Ok && r->Ok_0.accounts.splits(accounts@),
    {
        let accounts = RepayAccounts::try_from(accounts)?;
        Ok(Repay { accounts })
    }

    /// Checks, leg by leg in ledger order, that each asset account is the
    /// recorded one and holds at least its obligation. Only when all pass, it
    /// returns the lamports of the ledger account, which go back to the
    /// borrower as the ledger is closed; a failure changes nothing.
    pub fn process(&self) -> (r: Result<u64, FlashLoanError>)
        ensures
            r == self.outcome(),
            r is Ok <==> self.ledger().len() % 40 == 0 && self.ledger().len() / 40 == self.legs()
                && self.all_settled(),
    {
        let entries = match decode_ledger(self.accounts.loan.data.as_slice()) {
            Ok(e) => e,
            Err(e) => {
                return Err(e);
            },
        };
        let n = entries.len();
        let tokens = self.accounts.token_accounts;
        if n != tokens.len() {
            return Err(FlashLoanError::ArityMismatch);
        }
        let mut i: usize = 0;
        while i < n
            invariant
                i <= n,
                n == entries@.len(),
                n == self.legs(),
                tokens@ == self.accounts.token_accounts@,
                crate::ledger::ledger_encodes(self.ledger(), entries@),
                forall|j: int| 0 <= j < i ==> self.leg_error(j) is None,
            decreases n - i,
        {
            let account = &tokens[i];
            let entry: LoanData = entries[i];
            proof {
                assert(crate::ledger::record_encodes(record(self.ledger(), i as int), entries@[i as int]));
            }
            if !keys_equal(&entry.protocol_token_account, &account.key) {
                proof {
                    self.lemma_settle_skip(0, i as int);
                }
                return Err(FlashLoanError::OutOfOrderOrWrongAccount);
            }
            let balance = match token_balance(account) {
                Some(b) => b,
                None => {
                    proof {
                        self.lemma_settle_skip(0, i as int);
                    }
                    return Err(FlashLoanError::InvalidTokenAccount);
                },
            };
            if balance < entry.balance {
                proof {
                    self.lemma_settle_skip(0, i as int);
                }
                return Err(FlashLoanError::InsufficientRepayment);
            }
            i = i + 1;
        }
        proof {
            self.lemma_settle_none(0);
        }
        Ok(self.accounts.loan.lamports)
    }
}

} // verus!
