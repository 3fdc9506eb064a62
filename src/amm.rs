//! The pool-initialisation payload of the market-maker program.

use vstd::prelude::*;

use crate::bytes::{copy_key, le_value, read_u16_le, read_u64_le};

verus! {

/// Payload size with the authority.
pub const INITIALIZE_DATA_LEN_WITH_AUTHORITY: usize = 108;

/// Payload size without the authority, which then reads as all zero bytes.
pub const INITIALIZE_DATA_LEN: usize = 76;

/// The pool parameters: `seed:u64 | fee:u16 | mint_x:32 | mint_y:32 |
/// config_bump:1 | lp_bump:1 | authority:32`, integers little-endian.
#[derive(Clone, Copy, Debug)]
pub struct InitializeInstructionData {
    pub seed: u64,
    pub fee: u16,
    pub mint_x: [u8; 32],
    pub mint_y: [u8; 32],
    pub config_bump: [u8; 1],
    pub lp_bump: [u8; 1],
    pub authority: [u8; 32],
}

impl InitializeInstructionData {
    /// Whether these parameters are what the payload `data` says.
    pub open spec fn decodes(&self, data: Seq<u8>) -> bool {
        &&& self.seed as nat == le_value(data.subrange(0, 8))
        &&& self.fee as nat == le_value(data.subrange(8, 10))
        &&& self.mint_x@ == data.subrange(10, 42)
        &&& self.mint_y@ == data.subrange(42, 74)
        &&& self.config_bump@ == seq![data[74]]
        &&& self.lp_bump@ == seq![data[75]]
        &&& if data.len() == 108 {
            self.authority@ == data.subrange(76, 108)
        } else {
            self.authority@ == Seq::new(32, |i: int| 0u8)
        }
    }

    /// Decodes the payload; any length but 76 or 108 is refused.
    pub fn try_from(data: &[u8]) -> (r: Result<InitializeInstructionData, AmmError>)
        ensures
            data@.len() == 76 || data@.len() == 108 ==> r is Ok && r->Ok_0.decodes(data@),
            !(data@.len() == 76 || data@.len() == 108) ==> r == Err::<
                InitializeInstructionData,
                AmmError,
            >(AmmError::InvalidInstructionData),
    {
        let len = data.len();
        if len != INITIALIZE_DATA_LEN && len != INITIALIZE_DATA_LEN_WITH_AUTHORITY {
            return Err(AmmError::InvalidInstructionData);
        }
        let seed = read_u64_le(data, 0);
        let fee = read_u16_le(data, 8);
        let mint_x = copy_key(data, 10);
        let mint_y = copy_key(data, 42);
        let config_bump = [data[74]];
        let lp_bump = [data[75]];
        let authority = if len == INITIALIZE_DATA_LEN_WITH_AUTHORITY {
            copy_key(data, 76)
        } else {
            [0u8; 32]
        };
        proof {
            assert(config_bump@ =~= seq![data@[74]]);
            assert(lp_bump@ =~= seq![data@[75]]);
            if len == INITIALIZE_DATA_LEN {
                assert(authority@ =~= Seq::new(32, |i: int| 0u8));
            }
        }
        Ok(InitializeInstructionData { seed, fee, mint_x, mint_y, config_bump, lp_bump, authority })
    }
}

/// Why a market-maker instruction is refused.
#[derive(Clone, Copy, Debug, PartialEq, Eq, Structural)]
pub enum AmmError {
    /// The payload has the wrong size, a zero field, or has expired.
    InvalidInstructionData,
    /// The curve could not price the deposit, or it costs more than allowed.
    InvalidArgument,
    /// The pool is not initialised, or a vault is not at its derived address.
    InvalidAccountData,
}

/// The signed value of the two's-complement bytes `b`, eight of them.
pub open spec fn i64_of(b: Seq<u8>) -> int {
    if le_value(b) < 0x8000_0000_0000_0000 {
        le_value(b) as int
    } else {
        le_value(b) - 0x1_0000_0000_0000_0000
    }
}

/// A deposit into a pool: `amount:u64 | max_x:u64 | max_y:u64 | expiration:i64`,
/// little-endian. `amount` is the pool tokens wanted; `max_x` and `max_y` cap
/// what the depositor pays of each asset.
#[derive(Clone, Copy, Debug)]
pub struct DepositInstructionData {
    pub amount: u64,
    pub max_x: u64,
    pub max_y: u64,
    pub expiration: i64,
}

impl DepositInstructionData {
    /// Decodes the payload at time `now`: exactly 32 bytes, no zero amount,
    /// not expired.
    pub fn try_from(data: &[u8], now: i64) -> (r: Result<DepositInstructionData, AmmError>)
        ensures
            data@.len() != 32 ==> r == Err::<DepositInstructionData, AmmError>(
                AmmError::InvalidInstructionData,
            ),
            data@.len() == 32 ==> {
                let amount = le_value(data@.subrange(0, 8));
                let max_x = le_value(data@.subrange(8, 16));
                let max_y = le_value(data@.subrange(16, 24));
                let expiration = i64_of(data@.subrange(24, 32));
                if amount == 0 || max_x == 0 || max_y == 0 || now > expiration {
                    r == Err::<DepositInstructionData, AmmError>(AmmError::InvalidInstructionData)
                } else {
                    &&& r is Ok
                    &&& r->Ok_0.amount == amount
                    &&& r->Ok_0.max_x == max_x
                    &&& r->Ok_0.max_y == max_y
                    &&& r->Ok_0.expiration == expiration
                }
            },
    {
        if data.len() != 32 {
            return Err(AmmError::InvalidInstructionData);
        }
        let amount = read_u64_le(data, 0);
        let max_x = read_u64_le(data, 8);
        let max_y = read_u64_le(data, 16);
        let raw = read_u64_le(data, 24);
        let expiration: i64 = if raw <= 0x7fff_ffff_ffff_ffff {
            raw as i64
        } else {
            -((0xffff_ffff_ffff_ffffu64 - raw) as i64) - 1
        };
        if amount == 0 || max_x == 0 || max_y == 0 || now > expiration {
            return Err(AmmError::InvalidInstructionData);
        }
        Ok(DepositInstructionData { amount, max_x, max_y, expiration })
    }
}

/// What the pool holds: pool tokens in circulation and each asset's reserve.
#[derive(Clone, Copy, Debug)]
pub struct PoolBalances {
    pub lp_supply: u64,
    pub x: u64,
    pub y: u64,
}

/// Whether the pool holds nothing at all.
pub open spec fn pool_empty(pool: PoolBalances) -> bool {
    pool.lp_supply == 0 && pool.x == 0 && pool.y == 0
}

/// What the depositor pays of each asset. An empty pool takes the caps as
/// they are; otherwise `priced` is what the constant-product curve asks for
/// `request.amount` pool tokens (`None` where it could not price them), and
/// it must stay within the caps.
pub fn deposit_amounts(pool: &PoolBalances, request: &DepositInstructionData, priced: Option<(u64, u64)>) -> (r: Result<(u64, u64), AmmError>)
    ensures
        pool_empty(*pool) ==> r == Ok::<(u64, u64), AmmError>((request.max_x, request.max_y)),
        !pool_empty(*pool) ==> r == (match priced {
            None => Err(AmmError::InvalidArgument),
            Some((x, y)) => if x <= request.max_x && y <= request.max_y {
                Ok::<(u64, u64), AmmError>((x, y))
            } else {
                Err(AmmError::InvalidArgument)
            },
        }),
{
    let (x, y) = if pool.lp_supply == 0 && pool.x == 0 && pool.y == 0 {
        (request.max_x, request.max_y)
    } else {
        match priced {
            Some(xy) => xy,
            None => {
                return Err(AmmError::InvalidArgument);
            },
        }
    };
    if !(x <= request.max_x && y <= request.max_y) {
        return Err(AmmError::InvalidArgument);
    }
    Ok((x, y))
}

} // verus!
