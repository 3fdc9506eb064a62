//! The lamport vault: the deposit amount and what a withdrawal may take.

use vstd::prelude::*;

use crate::accounts::AccountView;
use crate::bytes::{keys_equal, le_value, read_u64_le};
use crate::ids::{p256_pubkey_len, spec_system_program_id, system_program_id};
use pinocchio_secp256r1_instruction::Secp256r1Pubkey;

verus! {

/// Why a vault instruction is refused.
#[derive(Clone, Copy, Debug, PartialEq, Eq, Structural)]
pub enum VaultError {
    /// The deposit payload is not one non-zero little-endian `u64`.
    InvalidInstructionData,
    /// The vault holds no more than its storage deposit.
    InsufficientFunds,
    /// Fewer or more accounts than the instruction takes.
    NotEnoughAccountKeys,
    /// The payer did not sign, or the vault is not a fresh system account.
    InvalidAccountOwner,
    /// The vault already holds lamports, or is not at its derived address.
    InvalidAccountData,
    /// The owner of the vault did not sign.
    MissingRequiredSignature,
    /// A fresh vault is not at the address derived from its owner.
    InvalidSeeds,
    /// The account given as the system program is another one.
    IncorrectProgramId,
}

/// Size of a vault account: an 8-byte discriminator and a `u64`.
pub const VAULT_SIZE: usize = 16;

/// What must happen to the vault before a deposit.
#[derive(Clone, Copy, Debug, PartialEq, Eq, Structural)]
pub enum VaultSetup {
    /// The vault does not exist yet: create it, `VAULT_SIZE` bytes, owned by the program.
    Create,
    /// The vault exists and belongs to the program.
    Existing,
}

/// Decides how a deposit treats the vault. `derived` is the vault address
/// derived from the owner's key; `program_id` the vault program.
pub fn vault_setup(owner: &AccountView, vault: &AccountView, derived: &[u8; 32], program_id: &[u8; 32]) -> (r: Result<VaultSetup, VaultError>)
    ensures
        r == (if !owner.is_signer {
            Err(VaultError::MissingRequiredSignature)
        } else if vault.data@.len() == 0 {
            if vault.key@ != derived@ {
                Err(VaultError::InvalidSeeds)
            } else {
                Ok::<VaultSetup, VaultError>(VaultSetup::Create)
            }
        } else if vault.owner@ != program_id@ {
            Err(VaultError::InvalidAccountOwner)
        } else {
            Ok::<VaultSetup, VaultError>(VaultSetup::Existing)
        }),
{
    if !owner.is_signer {
        return Err(VaultError::MissingRequiredSignature);
    }
    if vault.data.len() == 0 {
        if !keys_equal(&vault.key, derived) {
            return Err(VaultError::InvalidSeeds);
        }
        Ok(VaultSetup::Create)
    } else {
        if !keys_equal(&vault.owner, program_id) {
            return Err(VaultError::InvalidAccountOwner);
        }
        Ok(VaultSetup::Existing)
    }
}

/// Checks the accounts and payload of a deposit: owner, vault and system
/// program, then one non-zero `u64`. Returns the amount.
pub fn check_deposit(data: &[u8], accounts: &[AccountView]) -> (r: Result<u64, VaultError>)
    ensures
        accounts@.len() < 3 ==> r == Err::<u64, VaultError>(VaultError::NotEnoughAccountKeys),
        accounts@.len() >= 3 && (data@.len() != 8 || le_value(data@) == 0) ==> r == Err::<
            u64,
            VaultError,
        >(VaultError::InvalidInstructionData),
        accounts@.len() >= 3 && data@.len() == 8 && le_value(data@) != 0 ==> r == (if accounts@[2].key@
            != spec_system_program_id() {
            Err(VaultError::IncorrectProgramId)
        } else {
            Ok::<u64, VaultError>(le_value(data@) as u64)
        }),
{
    if accounts.len() < 3 {
        return Err(VaultError::NotEnoughAccountKeys);
    }
    let amount = parse_amount(data)?;
    let system = system_program_id();
    if !keys_equal(&accounts[2].key, &system) {
        return Err(VaultError::IncorrectProgramId);
    }
    Ok(amount)
}

/// The lamports of vault and owner after a withdrawal.
#[derive(Clone, Copy, Debug, PartialEq, Eq, Structural)]
pub struct WithdrawPlan {
    pub amount: u64,
    pub vault_lamports: u64,
    pub owner_lamports: u64,
}

/// Decides a withdrawal: the owner must sign, the vault must belong to the
/// program and sit at `derived`; everything above `min_balance` moves to the
/// owner.
pub fn withdraw_plan(owner: &AccountView, vault: &AccountView, derived: &[u8; 32], program_id: &[u8; 32], min_balance: u64) -> (r: Result<WithdrawPlan, VaultError>)
    ensures
        !owner.is_signer || vault.owner@ != program_id@ ==> r == Err::<WithdrawPlan, VaultError>(
            VaultError::InvalidAccountOwner,
        ),
        owner.is_signer && vault.owner@ == program_id@ && vault.key@ != derived@ ==> r == Err::<
            WithdrawPlan,
            VaultError,
        >(VaultError::InvalidAccountData),
        owner.is_signer && vault.owner@ == program_id@ && vault.key@ == derived@ ==> r == (if vault.lamports
            <= min_balance || owner.lamports + (vault.lamports - min_balance) > u64::MAX {
            Err(VaultError::InsufficientFunds)
        } else {
            Ok::<WithdrawPlan, VaultError>(
                WithdrawPlan {
                    amount: (vault.lamports - min_balance) as u64,
                    vault_lamports: min_balance,
                    owner_lamports: (owner.lamports + (vault.lamports - min_balance)) as u64,
                },
            )
        }),
{
    if !owner.is_signer {
        return Err(VaultError::InvalidAccountOwner);
    }
    if !keys_equal(&vault.owner, program_id) {
        return Err(VaultError::InvalidAccountOwner);
    }
    if !keys_equal(&vault.key, derived) {
        return Err(VaultError::InvalidAccountData);
    }
    let amount = withdraw_amount(vault.lamports, min_balance)?;
    let vault_lamports = vault.lamports - amount;
    let owner_lamports = match owner.lamports.checked_add(amount) {
        Some(v) => v,
        None => {
            return Err(VaultError::InsufficientFunds);
        },
    };
    Ok(WithdrawPlan { amount, vault_lamports, owner_lamports })
}

/// Reads the deposit amount: exactly eight bytes, not zero.
pub fn parse_amount(data: &[u8]) -> (r: Result<u64, VaultError>)
    ensures
        data@.len() != 8 ==> r == Err::<u64, VaultError>(VaultError::InvalidInstructionData),
        data@.len() == 8 ==> r == (if le_value(data@) == 0 {
            Err(VaultError::InvalidInstructionData)
        } else {
            Ok::<u64, VaultError>(le_value(data@) as u64)
        }),
{
    if data.len() != 8 {
        return Err(VaultError::InvalidInstructionData);
    }
    let amount = read_u64_le(data, 0);
    proof {
        assert(data@.subrange(0, 8) =~= data@);
    }
    if amount == 0 {
        return Err(VaultError::InvalidInstructionData);
    }
    Ok(amount)
}

/// What a withdrawal takes from a vault holding `current` lamports: all
/// above the storage deposit `min_balance`, which stays.
pub fn withdraw_amount(current: u64, min_balance: u64) -> (r: Result<u64, VaultError>)
    ensures
        current <= min_balance ==> r == Err::<u64, VaultError>(VaultError::InsufficientFunds),
        current > min_balance ==> r == Ok::<u64, VaultError>((current - min_balance) as u64),
{
    if current <= min_balance {
        return Err(VaultError::InsufficientFunds);
    }
    Ok(current - min_balance)
}

/// A deposit into a vault keyed by a P-256 public key:
/// `pubkey:33 | amount:u64 LE`.
#[derive(Clone, Copy, Debug)]
pub struct DepositInstructionData {
    pub pubkey: Secp256r1Pubkey,
    pub amount: u64,
}

impl DepositInstructionData {
    /// Decodes the payload, which must be exactly 41 bytes.
    pub fn try_from(data: &[u8]) -> (r: Result<DepositInstructionData, VaultError>)
        ensures
            data@.len() != 41 ==> r == Err::<DepositInstructionData, VaultError>(
                VaultError::InvalidInstructionData,
            ),
            data@.len() == 41 ==> r is Ok && r->Ok_0.pubkey@ == data@.subrange(0, 33)
                && r->Ok_0.amount as nat == le_value(data@.subrange(33, 41)),
    {
        let key_len = p256_pubkey_len();
        if data.len() != key_len + 8 {
            return Err(VaultError::InvalidInstructionData);
        }
        let mut pubkey = [0u8; 33];
        let mut k: usize = 0;
        while k < key_len
            invariant
                k <= 33,
                key_len == 33,
                data@.len() == 41,
                pubkey@.len() == 33,
                forall|m: int| 0 <= m < k ==> pubkey@[m] == data@[m],
            decreases 33 - k,
        {
            pubkey[k] = data[k];
            k = k + 1;
        }
        assert(pubkey@ =~= data@.subrange(0, 33));
        let amount = read_u64_le(data, key_len);
        Ok(DepositInstructionData { pubkey, amount })
    }
}

/// Why the accounts of a deposit into a P-256 vault are refused, if they are:
/// exactly a payer that signed, a vault that the system program owns and
/// that holds no lamports, and one more account.
pub open spec fn deposit_accounts_error(accounts: Seq<AccountView>) -> Option<VaultError> {
    if accounts.len() != 3 {
        Some(VaultError::NotEnoughAccountKeys)
    } else if !accounts[0].is_signer {
        Some(VaultError::InvalidAccountOwner)
    } else if accounts[1].owner@ != spec_system_program_id() {
        Some(VaultError::InvalidAccountOwner)
    } else if accounts[1].lamports != 0 {
        Some(VaultError::InvalidAccountData)
    } else {
        None
    }
}

/// Checks the accounts of a deposit into a P-256 vault.
pub fn check_deposit_accounts(accounts: &[AccountView]) -> (r: Result<(), VaultError>)
    ensures
        r == (match deposit_accounts_error(accounts@) {
            Some(e) => Err(e),
            None => Ok::<(), VaultError>(()),
        }),
{
    if accounts.len() != 3 {
        return Err(VaultError::NotEnoughAccountKeys);
    }
    if !accounts[0].is_signer {
        return Err(VaultError::InvalidAccountOwner);
    }
    let system = system_program_id();
    if !keys_equal(&accounts[1].owner, &system) {
        return Err(VaultError::InvalidAccountOwner);
    }
    if accounts[1].lamports != 0 {
        return Err(VaultError::InvalidAccountData);
    }
    Ok(())
}

} // verus!
