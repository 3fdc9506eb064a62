//! Role checks on accounts: each is a small test that passes or names what
//! is wrong.

use vstd::prelude::*;

use crate::accounts::AccountView;
use crate::bytes::keys_equal;
use crate::ids::{mint_len, spec_system_program_id, spec_token_program_id, system_program_id, token_program_id};

verus! {

/// What a role check found wrong.
#[derive(Clone, Copy, Debug, PartialEq, Eq, Structural)]
pub enum PinocchioError {
    NotSigner,
    InvalidOwner,
    InvalidAccountData,
    InvalidAddress,
}

/// The custom error code of each variant, its position in the declaration.
pub open spec fn error_code(e: PinocchioError) -> u32 {
    match e {
        PinocchioError::NotSigner => 0,
        PinocchioError::InvalidOwner => 1,
        PinocchioError::InvalidAccountData => 2,
        PinocchioError::InvalidAddress => 3,
    }
}

impl PinocchioError {
    /// The custom error code that the runtime reports for this error.
    pub fn code(&self) -> (r: u32)
        ensures
            r == error_code(*self),
    {
        match self {
            PinocchioError::NotSigner => 0,
            PinocchioError::InvalidOwner => 1,
            PinocchioError::InvalidAccountData => 2,
            PinocchioError::InvalidAddress => 3,
        }
    }
}

/// An account that must have signed the transaction.
pub struct SignerAccount;

impl SignerAccount {
    pub fn check(account: &AccountView) -> (r: Result<(), PinocchioError>)
        ensures
            r == (if account.is_signer {
                Ok::<(), PinocchioError>(())
            } else {
                Err(PinocchioError::NotSigner)
            }),
    {
        if !account.is_signer {
            return Err(PinocchioError::NotSigner);
        }
        Ok(())
    }
}

/// An account that the system program owns.
pub struct SystemAccount;

impl SystemAccount {
    pub fn check(account: &AccountView) -> (r: Result<(), PinocchioError>)
        ensures
            r == (if account.owner@ == spec_system_program_id() {
                Ok::<(), PinocchioError>(())
            } else {
                Err(PinocchioError::InvalidOwner)
            }),
    {
        let system = system_program_id();
        if !keys_equal(&account.owner, &system) {
            return Err(PinocchioError::InvalidOwner);
        }
        Ok(())
    }
}

/// Whether `account` is owned by the token program and has `len` bytes of data.
pub open spec fn token_owned_with_len(account: AccountView, len: nat) -> Result<(), PinocchioError> {
    if account.owner@ != spec_token_program_id() {
        Err(PinocchioError::InvalidOwner)
    } else if account.data@.len() != len {
        Err(PinocchioError::InvalidAccountData)
    } else {
        Ok(())
    }
}

fn check_token_owned(account: &AccountView, len: usize) -> (r: Result<(), PinocchioError>)
    ensures
        r == token_owned_with_len(*account, len as nat),
{
    let token = token_program_id();
    if !keys_equal(&account.owner, &token) {
        return Err(PinocchioError::InvalidOwner);
    }
    if account.data.len() != len {
        return Err(PinocchioError::InvalidAccountData);
    }
    Ok(())
}

/// A mint of the token program.
pub struct MintAccount;

impl MintAccount {
    pub fn check(account: &AccountView) -> (r: Result<(), PinocchioError>)
        ensures
            r == token_owned_with_len(*account, 82),
    {
        check_token_owned(account, mint_len())
    }
}

/// An asset account of the token program.
pub struct TokenAccount;

impl TokenAccount {
    pub fn check(account: &AccountView) -> (r: Result<(), PinocchioError>)
        ensures
            r == token_owned_with_len(*account, 165),
    {
        check_token_owned(account, crate::ids::token_account_len())
    }
}

/// The associated asset account of a wallet for a mint.
pub struct AssociatedTokenAccount;

impl AssociatedTokenAccount {
    /// `derived` is the address derived from the wallet, the token program
    /// and the mint under the associated-token-account program.
    pub fn check(account: &AccountView, derived: &[u8; 32]) -> (r: Result<(), PinocchioError>)
        ensures
            token_owned_with_len(*account, 165) is Err ==> r == token_owned_with_len(*account, 165),
            token_owned_with_len(*account, 165) is Ok ==> r == (if derived@ == account.key@ {
                Ok::<(), PinocchioError>(())
            } else {
                Err(PinocchioError::InvalidAddress)
            }),
    {
        TokenAccount::check(account)?;
        if !keys_equal(derived, &account.key) {
            return Err(PinocchioError::InvalidAddress);
        }
        Ok(())
    }
}

/// An account of the calling program holding one state record.
pub struct ProgramAccount;

impl ProgramAccount {
    /// `program_id` is the calling program; `state_len` the size of its record.
    pub fn check(account: &AccountView, program_id: &[u8; 32], state_len: usize) -> (r: Result<
        (),
        PinocchioError,
    >)
        ensures
            r == (if account.owner@ != program_id@ {
                Err(PinocchioError::InvalidOwner)
            } else if account.data@.len() != state_len {
                Err(PinocchioError::InvalidAccountData)
            } else {
                Ok::<(), PinocchioError>(())
            }),
    {
        if !keys_equal(&account.owner, program_id) {
            return Err(PinocchioError::InvalidOwner);
        }
        if account.data.len() != state_len {
            return Err(PinocchioError::InvalidAccountData);
        }
        Ok(())
    }
}

} // verus!
