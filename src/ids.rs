//! Identifiers and sizes that the runtime's crates define.

use vstd::prelude::*;

verus! {

/// The introspection sysvar's identifier, `Sysvar1nstructions1111111111111111111111111`.
pub open spec fn spec_instructions_id() -> Seq<u8> {
    seq![
        0x06u8, 0xa7, 0xd5, 0x17, 0x18, 0x7b, 0xd1, 0x66, 0x35, 0xda, 0xd4, 0x04, 0x55, 0xfd, 0xc2,
        0xc0, 0xc1, 0x24, 0xc6, 0x8f, 0x21, 0x56, 0x75, 0xa5, 0xdb, 0xba, 0xcb, 0x5f, 0x08, 0x00,
        0x00, 0x00,
    ]
}

/// The system program's identifier, `11111111111111111111111111111111`: all zero bytes.
pub open spec fn spec_system_program_id() -> Seq<u8> {
    Seq::new(32, |i: int| 0u8)
}

/// The token program's identifier, `TokenkegQfeZyiNwAJbNbGKPFXCWuBvf9Ss623VQ5DA`.
pub open spec fn spec_token_program_id() -> Seq<u8> {
    seq![
        6u8, 221, 246, 225, 215, 101, 161, 147, 217, 203, 225, 70, 206, 235, 121, 172, 28, 180, 133,
        237, 95, 91, 55, 145, 58, 140, 245, 133, 126, 255, 0, 169,
    ]
}

/// Relies on `pinocchio::sysvars::instructions::INSTRUCTIONS_ID`, whose bytes
/// its source writes out.
#[verifier::external_body]
pub(crate) fn instructions_sysvar_id() -> (r: [u8; 32])
    ensures
        r@ == spec_instructions_id(),
{
    pinocchio::sysvars::instructions::INSTRUCTIONS_ID
}

/// Relies on `pinocchio_system::ID`, declared from the base58 text of 32 `1`s.
#[verifier::external_body]
pub(crate) fn system_program_id() -> (r: [u8; 32])
    ensures
        r@ == spec_system_program_id(),
{
    pinocchio_system::ID
}

/// Relies on `pinocchio_token::ID`, declared from the base58 text above.
#[verifier::external_body]
pub(crate) fn token_program_id() -> (r: [u8; 32])
    ensures
        r@ == spec_token_program_id(),
{
    pinocchio_token::ID
}

/// Relies on `pinocchio_token::state::Mint::LEN`: the size of a `repr(C)`
/// struct of byte arrays, 4 + 32 + 8 + 1 + 1 + 4 + 32 bytes.
#[verifier::external_body]
pub(crate) fn mint_len() -> (r: usize)
    ensures
        r == 82,
{
    pinocchio_token::state::Mint::LEN
}

/// Relies on `pinocchio_token::state::TokenAccount::LEN`: the size of a
/// `repr(C)` struct of byte arrays, 32 + 32 + 8 + 4 + 32 + 1 + 4 + 8 + 8 + 4 + 32 bytes.
#[verifier::external_body]
pub(crate) fn token_account_len() -> (r: usize)
    ensures
        r == 165,
{
    pinocchio_token::state::TokenAccount::LEN
}

/// Relies on `pinocchio_secp256r1_instruction::SECP256R1_COMPRESSED_PUBKEY_LENGTH`,
/// which its source sets to 33.
#[verifier::external_body]
pub(crate) fn p256_pubkey_len() -> (r: usize)
    ensures
        r == 33,
{
    pinocchio_secp256r1_instruction::SECP256R1_COMPRESSED_PUBKEY_LENGTH
}

} // verus!
