use flash_loan::accounts::{get_token_amount, token_balance, AccountView};
use flash_loan::bytes::{keys_equal, push_u64_le, read_u16_le, read_u64_le};
use flash_loan::error::FlashLoanError;
use flash_loan::ledger::{decode_ledger, encode_ledger, ledger_size, LoanData, ENTRY_SIZE};
use flash_loan::loan::{
    decode_instruction, repay_is_last, FlashLoanInstruction, InstructionView, Loan, LoanAccounts,
    LoanInstructionData, TransferLeg,
};
use flash_loan::repay::{Repay, RepayAccounts};

const PROGRAM: [u8; 32] = [7u8; 32];
const INSTRUCTIONS_SYSVAR: [u8; 32] = [
    0x06, 0xa7, 0xd5, 0x17, 0x18, 0x7b, 0xd1, 0x66, 0x35, 0xda, 0xd4, 0x04, 0x55, 0xfd, 0xc2, 0xc0,
    0xc1, 0x24, 0xc6, 0x8f, 0x21, 0x56, 0x75, 0xa5, 0xdb, 0xba, 0xcb, 0x5f, 0x08, 0x00, 0x00, 0x00,
];

fn plain(k: u8) -> AccountView {
    AccountView { key: [k; 32], owner: [0u8; 32], is_signer: false, lamports: 0, data: Vec::new() }
}

fn token(k: u8, amount: u64) -> AccountView {
    let mut data = vec![0u8; 165];
    data[64..72].copy_from_slice(&amount.to_le_bytes());
    AccountView { key: [k; 32], owner: [9u8; 32], is_signer: false, lamports: 2_039_280, data }
}

fn loan_payload(bump: u8, fee: u16, amounts: &[u64]) -> Vec<u8> {
    let mut d = vec![bump];
    d.extend_from_slice(&fee.to_le_bytes());
    for a in amounts {
        d.extend_from_slice(&a.to_le_bytes());
    }
    d
}

/// borrower, protocol, ledger, sysvar, two program references, then pairs.
fn loan_accounts(pairs: &[(u64, u64)]) -> Vec<AccountView> {
    let mut borrower = plain(1);
    borrower.is_signer = true;
    let mut v = vec![borrower, plain(2), plain(3), plain(0), plain(4), plain(5)];
    v[3].key = INSTRUCTIONS_SYSVAR;
    for (i, (pool, user)) in pairs.iter().enumerate() {
        v.push(token(100 + 2 * i as u8, *pool));
        v.push(token(101 + 2 * i as u8, *user));
    }
    v
}

fn repay_ix(ledger: [u8; 32]) -> InstructionView {
    InstructionView { program_id: PROGRAM, data: vec![1], accounts: vec![[1u8; 32], ledger] }
}

fn transaction_ending_with(last: InstructionView) -> Vec<InstructionView> {
    let first = InstructionView { program_id: PROGRAM, data: vec![0, 1], accounts: vec![] };
    vec![first, last]
}

fn repay_accounts(ledger: Vec<u8>, pools: &[(u8, u64)]) -> Vec<AccountView> {
    let mut ledger_account = plain(3);
    ledger_account.owner = PROGRAM;
    ledger_account.lamports = 1_000_000;
    ledger_account.data = ledger;
    let mut v = vec![plain(1), ledger_account];
    for (k, amount) in pools {
        v.push(token(*k, *amount));
    }
    v
}

fn run_loan(fee: u16, pairs: &[(u64, u64)], amounts: &[u64]) -> Result<Vec<u8>, FlashLoanError> {
    let accounts = loan_accounts(pairs);
    let data = loan_payload(255, fee, amounts);
    let loan = Loan::try_from(&data, &accounts)?;
    let tx = transaction_ending_with(repay_ix([3u8; 32]));
    loan.process(&PROGRAM, &tx).map(|e| e.ledger)
}

#[test]
fn scenario_two_assets_obligations() {
    let ledger = run_loan(30, &[(10_000, 0), (5_000, 0)], &[1000, 500]).unwrap();
    assert_eq!(ledger.len(), 2 * ENTRY_SIZE);
    let entries = decode_ledger(&ledger).unwrap();
    assert_eq!(entries.len(), 2);
    assert_eq!(entries[0].protocol_token_account, [100u8; 32]);
    assert_eq!(entries[0].balance, 10_003);
    assert_eq!(entries[1].protocol_token_account, [102u8; 32]);
    assert_eq!(entries[1].balance, 5_001);
}

#[test]
fn scenario_repay_restored_succeeds() {
    let ledger = run_loan(30, &[(10_000, 0), (5_000, 0)], &[1000, 500]).unwrap();
    let accounts = repay_accounts(ledger, &[(100, 10_003), (102, 5_001)]);
    let repay = Repay::try_from(&accounts).unwrap();
    assert_eq!(repay.process(), Ok(1_000_000));
}

#[test]
fn scenario_repay_one_short_fails_entirely() {
    let ledger = run_loan(30, &[(10_000, 0), (5_000, 0)], &[1000, 500]).unwrap();
    let accounts = repay_accounts(ledger, &[(100, 10_002), (102, 900_000)]);
    let repay = Repay::try_from(&accounts).unwrap();
    assert_eq!(repay.process(), Err(FlashLoanError::InsufficientRepayment));
}

#[test]
fn repay_second_asset_short_fails() {
    let ledger = run_loan(30, &[(10_000, 0), (5_000, 0)], &[1000, 500]).unwrap();
    let accounts = repay_accounts(ledger, &[(100, 10_003), (102, 5_000)]);
    let repay = Repay::try_from(&accounts).unwrap();
    assert_eq!(repay.process(), Err(FlashLoanError::InsufficientRepayment));
}

#[test]
fn repay_succeeds_iff_every_leg_restored_single_asset() {
    let ledger = run_loan(100, &[(50, 0)], &[10_000]).unwrap();
    // obligation: 50 + 10000 * 100 / 10000 = 150
    let ok = repay_accounts(ledger.clone(), &[(100, 150)]);
    assert_eq!(Repay::try_from(&ok).unwrap().process(), Ok(1_000_000));
    let short = repay_accounts(ledger, &[(100, 149)]);
    assert_eq!(Repay::try_from(&short).unwrap().process(), Err(FlashLoanError::InsufficientRepayment));
}

#[test]
fn fee_rounds_down() {
    let ledger = run_loan(30, &[(0, 0)], &[333]).unwrap();
    let entries = decode_ledger(&ledger).unwrap();
    // 333 * 30 / 10000 = 0.999 -> 0
    assert_eq!(entries[0].balance, 0);
    let ledger = run_loan(30, &[(7, 0)], &[334]).unwrap();
    assert_eq!(decode_ledger(&ledger).unwrap()[0].balance, 8);
}

#[test]
fn loan_transfers_pair_positions() {
    let accounts = loan_accounts(&[(10, 0), (20, 0), (30, 0)]);
    let data = loan_payload(1, 0, &[1, 2, 3]);
    let loan = Loan::try_from(&data, &accounts).unwrap();
    let tx = transaction_ending_with(repay_ix([3u8; 32]));
    let effects = loan.process(&PROGRAM, &tx).unwrap();
    assert_eq!(
        effects.transfers,
        vec![
            TransferLeg { source: 0, destination: 1, amount: 1 },
            TransferLeg { source: 2, destination: 3, amount: 2 },
            TransferLeg { source: 4, destination: 5, amount: 3 },
        ]
    );
    assert_eq!(effects.ledger.len(), ledger_size(3));
}

#[test]
fn nonempty_ledger_refused_whatever_payload() {
    let mut accounts = loan_accounts(&[(10, 0)]);
    accounts[2].data = vec![0u8; 40];
    for data in [loan_payload(1, 30, &[5]), vec![], vec![1, 2, 3, 4]] {
        assert!(matches!(Loan::try_from(&data, &accounts), Err(FlashLoanError::LedgerNotEmpty)));
    }
}

#[test]
fn arity_mismatch_refused() {
    let accounts = loan_accounts(&[(10, 0), (20, 0)]);
    let data = loan_payload(1, 30, &[5]);
    assert!(matches!(Loan::try_from(&data, &accounts), Err(FlashLoanError::ArityMismatch)));
    let data = loan_payload(1, 30, &[5, 6, 7]);
    assert!(matches!(Loan::try_from(&data, &accounts), Err(FlashLoanError::ArityMismatch)));
}

#[test]
fn missing_repay_refused() {
    let accounts = loan_accounts(&[(10, 0)]);
    let data = loan_payload(1, 30, &[5]);
    let loan = Loan::try_from(&data, &accounts).unwrap();
    let other_program = InstructionView { program_id: [8u8; 32], data: vec![1], accounts: vec![[1u8; 32], [3u8; 32]] };
    let wrong_kind = InstructionView { program_id: PROGRAM, data: vec![0], accounts: vec![[1u8; 32], [3u8; 32]] };
    let no_data = InstructionView { program_id: PROGRAM, data: vec![], accounts: vec![[1u8; 32], [3u8; 32]] };
    let other_ledger = repay_ix([4u8; 32]);
    let too_few = InstructionView { program_id: PROGRAM, data: vec![1], accounts: vec![[3u8; 32]] };
    for last in [other_program, wrong_kind, no_data, other_ledger, too_few] {
        let tx = transaction_ending_with(last);
        assert!(matches!(loan.process(&PROGRAM, &tx), Err(FlashLoanError::MissingOrInvalidRepay)));
    }
    assert!(matches!(loan.process(&PROGRAM, &[]), Err(FlashLoanError::MissingOrInvalidRepay)));
    // a matching Repay that is not the last instruction does not count
    let tx = vec![repay_ix([3u8; 32]), InstructionView { program_id: [8u8; 32], data: vec![], accounts: vec![] }];
    assert!(matches!(loan.process(&PROGRAM, &tx), Err(FlashLoanError::MissingOrInvalidRepay)));
}

#[test]
fn repay_is_last_checks_last_only() {
    let tx = transaction_ending_with(repay_ix([3u8; 32]));
    assert!(repay_is_last(&tx, &PROGRAM, &[3u8; 32]));
    assert!(!repay_is_last(&tx, &PROGRAM, &[2u8; 32]));
    assert!(!repay_is_last(&tx, &[8u8; 32], &[3u8; 32]));
}

#[test]
fn fee_overflow_refused() {
    // amount * fee overflows
    assert_eq!(run_loan(2, &[(10, 0)], &[u64::MAX]), Err(FlashLoanError::FeeOverflow));
    // balance + fee overflows
    assert_eq!(run_loan(10_000, &[(u64::MAX, 0)], &[1]), Err(FlashLoanError::FeeOverflow));
    // the largest balance with no fee still fits
    assert_eq!(decode_ledger(&run_loan(0, &[(u64::MAX, 0)], &[1]).unwrap()).unwrap()[0].balance, u64::MAX);
}

#[test]
fn fee_overflow_on_second_leg() {
    assert_eq!(run_loan(10_000, &[(1, 0), (u64::MAX - 4, 0)], &[2, 5]), Err(FlashLoanError::FeeOverflow));
    assert_eq!(
        decode_ledger(&run_loan(10_000, &[(1, 0), (u64::MAX - 5, 0)], &[2, 5]).unwrap()).unwrap()[1].balance,
        u64::MAX
    );
}

#[test]
fn short_token_data_refused() {
    let mut accounts = loan_accounts(&[(10, 0)]);
    accounts[6].data = vec![0u8; 71];
    let data = loan_payload(1, 30, &[5]);
    let loan = Loan::try_from(&data, &accounts).unwrap();
    let tx = transaction_ending_with(repay_ix([3u8; 32]));
    assert!(matches!(loan.process(&PROGRAM, &tx), Err(FlashLoanError::InvalidTokenAccount)));
}

#[test]
fn wrong_introspection_account_refused() {
    let mut accounts = loan_accounts(&[(10, 0)]);
    accounts[3].key = [0u8; 32];
    let data = loan_payload(1, 30, &[5]);
    assert!(matches!(Loan::try_from(&data, &accounts), Err(FlashLoanError::UnsupportedIntrospectionSource)));
}

#[test]
fn loan_account_list_shape() {
    let accounts = loan_accounts(&[]);
    assert!(matches!(LoanAccounts::try_from(&accounts), Err(FlashLoanError::InvalidAssetAccounts)));
    let mut odd = loan_accounts(&[(1, 1)]);
    odd.push(plain(50));
    assert!(matches!(LoanAccounts::try_from(&odd), Err(FlashLoanError::InvalidAssetAccounts)));
    let few = loan_accounts(&[])[..5].to_vec();
    assert!(matches!(LoanAccounts::try_from(&few), Err(FlashLoanError::NotEnoughAccountKeys)));
    let good = loan_accounts(&[(1, 1), (2, 2)]);
    let split = LoanAccounts::try_from(&good).unwrap();
    assert_eq!(split.borrower.key, [1u8; 32]);
    assert_eq!(split.loan.key, [3u8; 32]);
    assert_eq!(split.token_accounts.len(), 4);
    assert_eq!(split.token_accounts[2].key, [102u8; 32]);
}

#[test]
fn loan_payload_parsing() {
    let data = loan_payload(254, 0x1234, &[1, 0x0102030405060708]);
    let parsed = LoanInstructionData::try_from(&data).unwrap();
    assert_eq!(parsed.bump, [254]);
    assert_eq!(parsed.fee, 0x1234);
    assert_eq!(parsed.amounts, vec![1, 0x0102030405060708]);
    let empty_tail = LoanInstructionData::try_from(&[9, 1, 0]).unwrap();
    assert!(empty_tail.amounts.is_empty());
    assert!(matches!(LoanInstructionData::try_from(&[9, 1]), Err(FlashLoanError::InvalidInstructionData)));
    assert!(matches!(LoanInstructionData::try_from(&[9, 1, 0, 4]), Err(FlashLoanError::InvalidInstructionData)));
    let accounts = loan_accounts(&[(1, 1)]);
    assert!(matches!(Loan::try_from(&[9, 1, 0, 4], &accounts), Err(FlashLoanError::InvalidInstructionData)));
}

#[test]
fn fee_seed_is_little_endian() {
    let accounts = loan_accounts(&[(1, 1)]);
    let data = loan_payload(3, 0x0a0b, &[5]);
    let loan = Loan::try_from(&data, &accounts).unwrap();
    assert_eq!(loan.fee_seed(), [0x0b, 0x0a]);
}

#[test]
fn repay_wrong_order_refused() {
    let ledger = run_loan(30, &[(10_000, 0), (5_000, 0)], &[1000, 500]).unwrap();
    let accounts = repay_accounts(ledger, &[(102, 99_999), (100, 99_999)]);
    let repay = Repay::try_from(&accounts).unwrap();
    assert_eq!(repay.process(), Err(FlashLoanError::OutOfOrderOrWrongAccount));
}

#[test]
fn repay_count_mismatch_refused() {
    let ledger = run_loan(30, &[(10_000, 0), (5_000, 0)], &[1000, 500]).unwrap();
    let accounts = repay_accounts(ledger, &[(100, 99_999)]);
    assert_eq!(Repay::try_from(&accounts).unwrap().process(), Err(FlashLoanError::ArityMismatch));
}

#[test]
fn repay_malformed_ledger_refused() {
    let accounts = repay_accounts(vec![0u8; 41], &[(0, 99)]);
    assert_eq!(Repay::try_from(&accounts).unwrap().process(), Err(FlashLoanError::MalformedLedger));
    let accounts = repay_accounts(vec![0u8; 79], &[(0, 99), (0, 99)]);
    assert_eq!(Repay::try_from(&accounts).unwrap().process(), Err(FlashLoanError::MalformedLedger));
}

#[test]
fn repay_short_token_data_refused() {
    let ledger = run_loan(0, &[(5, 0)], &[1]).unwrap();
    let mut accounts = repay_accounts(ledger, &[(100, 5)]);
    accounts[2].data.truncate(70);
    assert_eq!(Repay::try_from(&accounts).unwrap().process(), Err(FlashLoanError::InvalidTokenAccount));
}

#[test]
fn repay_needs_borrower_and_ledger() {
    assert!(matches!(Repay::try_from(&[plain(1)]), Err(FlashLoanError::NotEnoughAccountKeys)));
    assert!(matches!(RepayAccounts::try_from(&[]), Err(FlashLoanError::NotEnoughAccountKeys)));
    let two = vec![plain(1), plain(2)];
    let r = RepayAccounts::try_from(&two).unwrap();
    assert_eq!(r.loan.key, [2u8; 32]);
    assert!(r.token_accounts.is_empty());
}

#[test]
fn ledger_round_trip_and_size() {
    let entries = vec![
        LoanData { protocol_token_account: [5u8; 32], balance: 0x1122334455667788 },
        LoanData { protocol_token_account: [6u8; 32], balance: 1 },
    ];
    let bytes = encode_ledger(&entries);
    assert_eq!(bytes.len(), 80);
    assert_eq!(&bytes[0..32], &[5u8; 32]);
    assert_eq!(&bytes[32..40], &[0x88, 0x77, 0x66, 0x55, 0x44, 0x33, 0x22, 0x11]);
    assert_eq!(bytes[72], 1);
    let back = decode_ledger(&bytes).unwrap();
    assert_eq!(back[0].balance, 0x1122334455667788);
    assert_eq!(back[1].protocol_token_account, [6u8; 32]);
    assert!(decode_ledger(&[]).unwrap().is_empty());
    assert!(matches!(decode_ledger(&[0u8; 39]), Err(FlashLoanError::MalformedLedger)));
    assert_eq!(ledger_size(0), 0);
    assert_eq!(ledger_size(7), 280);
}

#[test]
fn byte_helpers() {
    let data = [0u8, 1, 2, 3, 4, 5, 6, 7, 8, 9];
    assert_eq!(read_u64_le(&data, 1), 0x0807060504030201);
    assert_eq!(read_u16_le(&data, 2), 0x0302);
    let mut out = vec![0xaa];
    push_u64_le(&mut out, 0x0102030405060708);
    assert_eq!(out, vec![0xaa, 8, 7, 6, 5, 4, 3, 2, 1]);
    assert!(keys_equal(&[3u8; 32], &[3u8; 32]));
    let mut other = [3u8; 32];
    other[31] = 4;
    assert!(!keys_equal(&[3u8; 32], &other));
}

#[test]
fn token_amount_reads_offset_64() {
    let t = token(1, 0xdead_beef_0000_0001);
    assert_eq!(get_token_amount(&t.data), 0xdead_beef_0000_0001);
    assert_eq!(token_balance(&t), Some(0xdead_beef_0000_0001));
    let mut short = t.clone();
    short.data.truncate(71);
    assert_eq!(token_balance(&short), None);
}

#[test]
fn instruction_discriminator() {
    assert_eq!(decode_instruction(&[0, 5]), Ok(FlashLoanInstruction::Loan));
    assert_eq!(decode_instruction(&[1]), Ok(FlashLoanInstruction::Repay));
    assert_eq!(decode_instruction(&[2]), Err(FlashLoanError::UnknownInstruction));
    assert_eq!(decode_instruction(&[]), Err(FlashLoanError::UnknownInstruction));
}
