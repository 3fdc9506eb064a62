//! The `Loan` instruction: its payload, its account list, and the ledger and
//! transfers that it produces once the transaction is known to end with a
//! matching `Repay`.

use vstd::prelude::*;
use vstd::slice::slice_subrange;

use crate::accounts::{balance_of, token_balance, AccountView};
use crate::bytes::{keys_equal, le_value, read_u16_le, read_u64_le};
use crate::error::FlashLoanError;
use crate::ids::{instructions_sysvar_id, spec_instructions_id};
use crate::ledger::{encode_ledger, ledger_encodes, LoanData};

verus! {

/// Discriminator byte of `Loan`.
pub const LOAN_DISCRIMINATOR: u8 = 0;

/// Discriminator byte of `Repay`.
pub const REPAY_DISCRIMINATOR: u8 = 1;

/// Number of fixed accounts before the asset accounts of `Loan`.
pub const LOAN_FIXED_ACCOUNTS: usize = 6;

/// Position of the ledger in the account list of `Repay`.
pub const REPAY_LEDGER_INDEX: usize = 1;

/// Basis points in a whole.
pub const BPS_DENOMINATOR: u64 = 10_000;

/// The two instructions of the flash-loan program.
#[derive(Clone, Copy, Debug, PartialEq, Eq, Structural)]
pub enum FlashLoanInstruction {
    Loan,
    Repay,
}

/// Selects the instruction by the payload's leading byte; the rest of the
/// payload belongs to that instruction.
pub fn decode_instruction(data: &[u8]) -> (r: Result<FlashLoanInstruction, FlashLoanError>)
    ensures
        data@.len() > 0 && data@[0] == LOAN_DISCRIMINATOR ==> r == Ok::<
            FlashLoanInstruction,
            FlashLoanError,
        >(FlashLoanInstruction::Loan),
        data@.len() > 0 && data@[0] == REPAY_DISCRIMINATOR ==> r == Ok::<
            FlashLoanInstruction,
            FlashLoanError,
        >(FlashLoanInstruction::Repay),
        data@.len() == 0 || data@[0] > 1 ==> r == Err::<FlashLoanInstruction, FlashLoanError>(
            FlashLoanError::UnknownInstruction,
        ),
{
    if data.len() == 0 {
        return Err(FlashLoanError::UnknownInstruction);
    }
    if data[0] == LOAN_DISCRIMINATOR {
        Ok(FlashLoanInstruction::Loan)
    } else if data[0] == REPAY_DISCRIMINATOR {
        Ok(FlashLoanInstruction::Repay)
    } else {
        Err(FlashLoanError::UnknownInstruction)
    }
}

/// Amount `i` of a `Loan` payload: the `u64` after the bump, the fee and `i`
/// earlier amounts.
pub open spec fn amount_at(data: Seq<u8>, i: int) -> nat {
    le_value(data.subrange(3 + 8 * i, 11 + 8 * i))
}

/// A `Loan` payload holds a bump byte, a 2-byte fee, and whole 8-byte amounts.
pub open spec fn payload_well_formed(data: Seq<u8>) -> bool {
    data.len() >= 3 && (data.len() - 3) % 8 == 0
}

/// Number of amounts in a well-formed `Loan` payload.
pub open spec fn amount_count(data: Seq<u8>) -> int {
    (data.len() - 3) / 8
}

/// The request of a `Loan`: the authority's bump, the fee in basis points,
/// and one amount per borrowed asset.
#[derive(Debug)]
pub struct LoanInstructionData {
    pub bump: [u8; 1],
    pub fee: u16,
    pub amounts: Vec<u64>,
}

impl LoanInstructionData {
    /// Whether this request is what the payload `data` says.
    pub open spec fn decodes(&self, data: Seq<u8>) -> bool {
        &&& self.bump@ == seq![data[0]]
        &&& self.fee as nat == le_value(data.subrange(1, 3))
        &&& self.amounts@.len() == amount_count(data)
        &&& forall|i: int| 0 <= i < self.amounts@.len() ==> #[trigger] self.amounts@[i] as nat == amount_at(data, i)
    }

    /// Decodes a `Loan` payload (after its discriminator):
    /// `bump:1 | fee_bps:u16 LE | amounts:u64 LE × N`.
    pub fn try_from(data: &[u8]) -> (r: Result<LoanInstructionData, FlashLoanError>)
        ensures
            payload_well_formed(data@) ==> r is Ok && r->Ok_0.decodes(data@),
            !payload_well_formed(data@) ==> r == Err::<LoanInstructionData, FlashLoanError>(
                FlashLoanError::InvalidInstructionData,
            ),
    {
        let len = data.len();
        if len < 3 || (len - 3) % 8 != 0 {
            return Err(FlashLoanError::InvalidInstructionData);
        }
        let bump = [data[0]];
        let fee = read_u16_le(data, 1);
        let count = (len - 3) / 8;
        let mut amounts: Vec<u64> = Vec::new();
        let mut i: usize = 0;
        while i < count
            invariant
                i <= count,
                count == amount_count(data@),
                len == data@.len(),
                payload_well_formed(data@),
                amounts@.len() == i,
                forall|j: int| 0 <= j < i ==> #[trigger] amounts@[j] as nat == amount_at(data@, j),
            decreases count - i,
        {
            let a = read_u64_le(data, 3 + 8 * i);
            amounts.push(a);
            i = i + 1;
        }
        proof {
            assert(bump@ =~= seq![data@[0]]);
        }
        Ok(LoanInstructionData { bump, fee, amounts })
    }
}

/// Why a `Loan` account list is refused, in the order the checks run.
pub open spec fn loan_accounts_error(accounts: Seq<AccountView>) -> Option<FlashLoanError> {
    if accounts.len() < 6 {
        Some(FlashLoanError::NotEnoughAccountKeys)
    } else if accounts[3].key@ != spec_instructions_id() {
        Some(FlashLoanError::UnsupportedIntrospectionSource)
    } else if accounts.len() == 6 || (accounts.len() - 6) % 2 != 0 {
        Some(FlashLoanError::InvalidAssetAccounts)
    } else if accounts[2].data@.len() != 0 {
        Some(FlashLoanError::LedgerNotEmpty)
    } else {
        None
    }
}

/// The accounts of a `Loan`: borrower, protocol authority, ledger,
/// introspection sysvar, two program references, then the asset accounts in
/// (protocol-side, borrower-side) pairs.
pub struct LoanAccounts<'a> {
    pub borrower: &'a AccountView,
    pub protocol: &'a AccountView,
    pub loan: &'a AccountView,
    pub instruction_sysvar: &'a AccountView,
    pub token_accounts: &'a [AccountView],
}

impl<'a> LoanAccounts<'a> {
    /// Whether these are the roles that the account list `accounts` gives.
    pub open spec fn splits(&self, accounts: Seq<AccountView>) -> bool {
        &&& accounts.len() >= 6
        &&& *self.borrower == accounts[0]
        &&& *self.protocol == accounts[1]
        &&& *self.loan == accounts[2]
        &&& *self.instruction_sysvar == accounts[3]
        &&& self.token_accounts@ == accounts.subrange(6, accounts.len() as int)
    }

    /// Checks the shape of a `Loan` account list and splits it into roles.
    pub fn try_from(accounts: &'a [AccountView]) -> (r: Result<LoanAccounts<'a>, FlashLoanError>)
        ensures
            match loan_accounts_error(accounts@) {
                Some(e) => r == Err::<LoanAccounts<'a>, FlashLoanError>(e),
                None => r is Ok && r->Ok_0.splits(accounts@),
            },
    {
        let len = accounts.len();
        if len < LOAN_FIXED_ACCOUNTS {
            return Err(FlashLoanError::NotEnoughAccountKeys);
        }
        let sysvar_id = instructions_sysvar_id();
        if !keys_equal(&accounts[3].key, &sysvar_id) {
            return Err(FlashLoanError::UnsupportedIntrospectionSource);
        }
        let rest = len - LOAN_FIXED_ACCOUNTS;
        if rest % 2 != 0 || rest == 0 {
            return Err(FlashLoanError::InvalidAssetAccounts);
        }
        if accounts[2].data.len() != 0 {
            return Err(FlashLoanError::LedgerNotEmpty);
        }
        Ok(LoanAccounts {
            borrower: &accounts[0],
            protocol: &accounts[1],
            loan: &accounts[2],
            instruction_sysvar: &accounts[3],
            token_accounts: slice_subrange(accounts, LOAN_FIXED_ACCOUNTS, len),
        })
    }
}

/// Why a `Loan` is refused before any work, in the order the checks run:
/// accounts, then payload, then the agreement of their counts.
pub open spec fn loan_request_error(data: Seq<u8>, accounts: Seq<AccountView>) -> Option<
    FlashLoanError,
> {
    if loan_accounts_error(accounts) is Some {
        loan_accounts_error(accounts)
    } else if !payload_well_formed(data) {
        Some(FlashLoanError::InvalidInstructionData)
    } else if amount_count(data) != (accounts.len() - 6) / 2 {
        Some(FlashLoanError::ArityMismatch)
    } else {
        None
    }
}

/// One instruction of the enclosing transaction, as introspection shows it.
#[derive(Clone, Debug)]
pub struct InstructionView {
    pub program_id: [u8; 32],
    pub data: Vec<u8>,
    pub accounts: Vec<[u8; 32]>,
}

/// Whether the transaction's last instruction is a `Repay` of `program_id`
/// whose ledger is `ledger_key`.
pub open spec fn repay_follows(
    transaction: Seq<InstructionView>,
    program_id: Seq<u8>,
    ledger_key: Seq<u8>,
) -> bool {
    &&& transaction.len() > 0
    &&& transaction.last().program_id@ == program_id
    &&& transaction.last().data@.len() > 0
    &&& transaction.last().data@[0] == REPAY_DISCRIMINATOR
    &&& transaction.last().accounts@.len() > 1
    &&& transaction.last().accounts@[1]@ == ledger_key
}

/// Checks that the transaction ends with a `Repay` of `program_id` on the
/// ledger `ledger_key`.
pub fn repay_is_last(transaction: &[InstructionView], program_id: &[u8; 32], ledger_key: &[u8; 32]) -> (r: bool)
    ensures
        r == repay_follows(transaction@, program_id@, ledger_key@),
{
    let n = transaction.len();
    if n == 0 {
        return false;
    }
    let last = &transaction[n - 1];
    if !keys_equal(&last.program_id, program_id) {
        return false;
    }
    if last.data.len() == 0 || last.data[0] != REPAY_DISCRIMINATOR {
        return false;
    }
    if last.accounts.len() <= REPAY_LEDGER_INDEX {
        return false;
    }
    keys_equal(&last.accounts[REPAY_LEDGER_INDEX], ledger_key)
}

/// The fee on `amount` at `fee_bps` basis points, rounded down.
pub open spec fn fee_on(amount: nat, fee_bps: nat) -> nat {
    (amount * fee_bps) / 10000
}

/// The obligation of one leg: the protocol-side balance before the transfer
/// plus the fee, or why it cannot be recorded.
pub open spec fn leg_obligation(account: AccountView, amount: u64, fee_bps: u16) -> Result<
    nat,
    FlashLoanError,
> {
    match balance_of(account) {
        None => Err(FlashLoanError::InvalidTokenAccount),
        Some(b) => if amount * fee_bps > u64::MAX || b + fee_on(amount as nat, fee_bps as nat)
            > u64::MAX {
            Err(FlashLoanError::FeeOverflow)
        } else {
            Ok(b + fee_on(amount as nat, fee_bps as nat))
        },
    }
}

/// A transfer of `amount` from asset account `source` to asset account
/// `destination`, both positions among the asset accounts.
#[derive(Clone, Copy, Debug, PartialEq, Eq, Structural)]
pub struct TransferLeg {
    pub source: usize,
    pub destination: usize,
    pub amount: u64,
}

/// What a successful `Loan` does: the data of the new ledger account, and
/// the transfers to make under the protocol's authority.
#[derive(Debug)]
pub struct LoanEffects {
    pub ledger: Vec<u8>,
    pub transfers: Vec<TransferLeg>,
}

/// A parsed `Loan`: its accounts and its request.
pub struct Loan<'a> {
    pub accounts: LoanAccounts<'a>,
    pub instruction_data: LoanInstructionData,
}

impl<'a> Loan<'a> {
    /// One amount for each pair of asset accounts.
    pub open spec fn wf(&self) -> bool {
        self.accounts.token_accounts@.len() == 2 * self.instruction_data.amounts@.len()
    }

    /// Number of borrowed assets.
    pub open spec fn legs(&self) -> int {
        self.instruction_data.amounts@.len() as int
    }

    /// The obligation of leg `i`.
    pub open spec fn leg(&self, i: int) -> Result<nat, FlashLoanError> {
        leg_obligation(
            self.accounts.token_accounts@[2 * i],
            self.instruction_data.amounts@[i],
            self.instruction_data.fee,
        )
    }

    /// The ledger entry of leg `i`, where its obligation can be recorded.
    pub open spec fn entry(&self, i: int) -> LoanData {
        LoanData {
            protocol_token_account: self.accounts.token_accounts@[2 * i].key,
            balance: self.leg(i)->Ok_0 as u64,
        }
    }

    /// The ledger entries of all legs.
    pub open spec fn entries(&self) -> Seq<LoanData> {
        Seq::new(self.legs() as nat, |i: int| self.entry(i))
    }

    /// Whether leg `i` is the first whose obligation cannot be recorded.
    pub open spec fn first_failing_leg(&self, i: int) -> bool {
        &&& 0 <= i < self.legs()
        &&& self.leg(i) is Err
        &&& forall|j: int| 0 <= j < i ==> self.leg(j) is Ok
    }

    /// Whether every leg's obligation can be recorded.
    pub open spec fn all_legs_ok(&self) -> bool {
        forall|i: int| 0 <= i < self.legs() ==> self.leg(i) is Ok
    }

    /// The fee as the little-endian bytes that seed the protocol's signing
    /// authority, after the tag and before the bump.
    pub fn fee_seed(&self) -> (r: [u8; 2])
        ensures
            le_value(r@) == self.instruction_data.fee as nat,
    {
        let fee = self.instruction_data.fee;
        let r = [(fee % 256) as u8, (fee / 256) as u8];
        proof {
            assert(r@.drop_first().drop_first() =~= Seq::<u8>::empty());
            reveal_with_fuel(le_value, 3);
        }
        r
    }

    /// Parses a `Loan` from its payload (after the discriminator) and its
    /// account list.
    pub fn try_from(data: &[u8], accounts: &'a [AccountView]) -> (r: Result<Loan<'a>, FlashLoanError>)
        ensures
            match loan_request_error(data@, accounts@) {
                Some(e) => r == Err::<Loan<'a>, FlashLoanError>(e),
                None => {
                    &&& r is Ok
                    &&& r->Ok_0.wf()
                    &&& r->Ok_0.accounts.splits(accounts@)
                    &&& r->Ok_0.instruction_data.decodes(data@)
                },
            },
    {
        let accounts = LoanAccounts::try_from(accounts)?;
        let instruction_data = LoanInstructionData::try_from(data)?;
        if instruction_data.amounts.len() != accounts.token_accounts.len() / 2 {
            return Err(FlashLoanError::ArityMismatch);
        }
        Ok(Loan { accounts, instruction_data })
    }

    /// Works out the ledger and the transfers of this loan. The balances are
    /// those of the asset accounts before any transfer; the transaction is
    /// the enclosing one, as introspection reads it.
    pub fn process(&self, program_id: &[u8; 32], transaction: &[InstructionView]) -> (r: Result<
        LoanEffects,
        FlashLoanError,
    >)
        requires
            self.wf(),
            self.legs() * 40 <= usize::MAX,
        ensures
            r is Ok <==> self.all_legs_ok() && repay_follows(
                transaction@,
                program_id@,
                self.accounts.loan.key@,
            ),
            forall|i: int| #[trigger] self.first_failing_leg(i) ==> r == Err::<LoanEffects, FlashLoanError>(
                self.leg(i)->Err_0,
            ),
            self.all_legs_ok() && !repay_follows(transaction@, program_id@, self.accounts.loan.key@)
                ==> r == Err::<LoanEffects, FlashLoanError>(FlashLoanError::MissingOrInvalidRepay),
            self.all_legs_ok() && repay_follows(transaction@, program_id@, self.accounts.loan.key@)
                ==> {
                &&& r is Ok
                &&& ledger_encodes(r->Ok_0.ledger@, self.entries())
                &&& r->Ok_0.transfers@.len() == self.legs()
                &&& forall|i: int| 0 <= i < self.legs() ==> #[trigger] r->Ok_0.transfers@[i] == (TransferLeg {
                    source: (2 * i) as usize,
                    destination: (2 * i + 1) as usize,
                    amount: self.instruction_data.amounts@[i],
                })
            },
    {
        let n = self.instruction_data.amounts.len();
        let m = self.accounts.token_accounts.len();
        let fee = self.instruction_data.fee;
        let mut entries: Vec<LoanData> = Vec::new();
        let mut transfers: Vec<TransferLeg> = Vec::new();
        let mut i: usize = 0;
        while i < n
            invariant
                self.wf(),
                n == self.legs(),
                m == self.accounts.token_accounts@.len(),
                fee == self.instruction_data.fee,
                i <= n,
                entries@.len() == i,
                transfers@.len() == i,
                forall|j: int| 0 <= j < i ==> self.leg(j) is Ok,
                forall|j: int| 0 <= j < i ==> #[trigger] entries@[j] == self.entry(j),
                forall|j: int| 0 <= j < i ==> #[trigger] transfers@[j] == (TransferLeg {
                    source: (2 * j) as usize,
                    destination: (2 * j + 1) as usize,
                    amount: self.instruction_data.amounts@[j],
                }),
            decreases n - i,
        {
            let protocol_side = &self.accounts.token_accounts[2 * i];
            let amount = self.instruction_data.amounts[i];
            let balance = match token_balance(protocol_side) {
                Some(b) => b,
                None => {
                    proof {
                        assert(self.first_failing_leg(i as int));
                    }
                    return Err(FlashLoanError::InvalidTokenAccount);
                },
            };
            let fee_amount = match amount.checked_mul(fee as u64) {
                Some(x) => x / BPS_DENOMINATOR,
                None => {
                    proof {
                        assert(self.first_failing_leg(i as int));
                    }
                    return Err(FlashLoanError::FeeOverflow);
                },
            };
            let obligation = match balance.checked_add(fee_amount) {
                Some(x) => x,
                None => {
                    proof {
                        assert(self.first_failing_leg(i as int));
                    }
                    return Err(FlashLoanError::FeeOverflow);
                },
            };
            entries.push(LoanData { protocol_token_account: protocol_side.key, balance: obligation });
            transfers.push(TransferLeg { source: 2 * i, destination: 2 * i + 1, amount });
            i = i + 1;
        }
        if !repay_is_last(transaction, program_id, &self.accounts.loan.key) {
            return Err(FlashLoanError::MissingOrInvalidRepay);
        }
        proof {
            assert(entries@ =~= self.entries());
        }
        let ledger = encode_ledger(&entries);
        Ok(LoanEffects { ledger, transfers })
    }
}

} // verus!
