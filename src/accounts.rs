//! What the programs read of an account.

use vstd::prelude::*;

use crate::bytes::{le_value, read_u64_le};

verus! {

/// The parts of an account that the programs look at: its identifier, its
/// owning program, whether it signed, its native balance and its data.
#[derive(Clone, Debug)]
pub struct AccountView {
    pub key: [u8; 32],
    pub owner: [u8; 32],
    pub is_signer: bool,
    pub lamports: u64,
    pub data: Vec<u8>,
}

/// Offset of the balance in an asset account's data.
pub const TOKEN_AMOUNT_OFFSET: usize = 64;

/// The balance recorded in an asset account's data: the little-endian `u64`
/// at offset 64.
pub open spec fn token_amount(data: Seq<u8>) -> nat {
    le_value(data.subrange(64, 72))
}

/// An account's asset balance, where its data is long enough to hold one.
pub open spec fn balance_of(a: AccountView) -> Option<nat> {
    if a.data@.len() >= 72 {
        Some(token_amount(a.data@))
    } else {
        None
    }
}

/// Reads the balance of an asset account from its data.
pub fn get_token_amount(data: &[u8]) -> (r: u64)
    requires
        data@.len() >= 72,
    ensures
        r as nat == token_amount(data@),
{
    read_u64_le(data, TOKEN_AMOUNT_OFFSET)
}

/// The balance of an asset account, or `None` where its data is too short.
pub fn token_balance(account: &AccountView) -> (r: Option<u64>)
    ensures
        match balance_of(*account) {
            Some(b) => r == Some(b as u64) && b <= u64::MAX,
            None => r is None,
        },
{
    if account.data.len() >= 72 {
        let v = get_token_amount(account.data.as_slice());
        Some(v)
    } else {
        None
    }
}

} // verus!
