use escrow::error::{EscrowError, ProcessError};
use escrow::instruction::EscrowInstruction;
use escrow::processor::{AccountInput, Effect, HostInputs, Processor};
use escrow::state::{Escrow, EscrowState, ESCROW_LEN};

const T: i64 = 1_700_000_000;

fn key(b: u8) -> [u8; 32] {
    [b; 32]
}

const SELLER: u8 = 1;
const ESCROW_ACCOUNT: u8 = 2;
const SELLER_TOKEN: u8 = 3;
const BUYER: u8 = 4;
const BUYER_TOKEN: u8 = 5;
const HOLDING: u8 = 6;
const TOKEN_PROGRAM: u8 = 7;
const OTHER: u8 = 9;

fn acct(b: u8, signer: bool) -> AccountInput {
    let k = if b == TOKEN_PROGRAM { spl_token::id().to_bytes() } else { key(b) };
    AccountInput { key: k, is_signer: signer }
}

fn init_accounts() -> Vec<AccountInput> {
    vec![
        acct(SELLER, true),
        acct(ESCROW_ACCOUNT, false),
        acct(SELLER_TOKEN, false),
        acct(BUYER, true),
        acct(BUYER_TOKEN, false),
        acct(HOLDING, false),
        acct(20, false),
        acct(21, false),
    ]
}

fn fund_accounts(buyer: u8) -> Vec<AccountInput> {
    vec![
        acct(buyer, true),
        acct(ESCROW_ACCOUNT, false),
        acct(BUYER_TOKEN, false),
        acct(HOLDING, false),
        acct(TOKEN_PROGRAM, false),
    ]
}

fn payout_accounts(caller: u8, recipient: u8) -> Vec<AccountInput> {
    vec![
        acct(caller, true),
        acct(ESCROW_ACCOUNT, false),
        acct(HOLDING, false),
        acct(recipient, false),
        acct(TOKEN_PROGRAM, false),
        acct(22, false),
    ]
}

fn dispute_accounts(caller: u8) -> Vec<AccountInput> {
    vec![acct(caller, true), acct(ESCROW_ACCOUNT, false), acct(22, false)]
}

fn host(now: i64) -> HostInputs {
    HostInputs { current_timestamp: now, rent_exempt: true }
}

fn run(accounts: &Vec<AccountInput>, data: &Vec<u8>, ins: EscrowInstruction, now: i64) -> Result<Effect, ProcessError> {
    Processor::process(&key(30), accounts, data, &ins.pack(), &host(now))
}

fn sig(b: u8) -> [u8; 64] {
    [b; 64]
}

fn record(data: &Vec<u8>) -> Escrow {
    Escrow::unpack(data).unwrap()
}

/// Scenario A: a fresh escrow in state Created.
fn created() -> Vec<u8> {
    let ins = EscrowInstruction::Initialize {
        amount: 1000,
        release_timestamp: T + 1000,
        dispute_time_window: 500,
        listing_id: key(42),
    };
    run(&init_accounts(), &vec![0u8; ESCROW_LEN], ins, T).unwrap().escrow_data
}

fn funded() -> Vec<u8> {
    let data = created();
    run(&fund_accounts(BUYER), &data, EscrowInstruction::Fund { transaction_signature: sig(7) }, T + 10)
        .unwrap()
        .escrow_data
}

#[test]
fn test_validate_instruction() {
    assert!(true);
}

#[test]
fn initialize_creates_record() {
    let data = created();
    assert_eq!(data.len(), ESCROW_LEN);
    let e = record(&data);
    assert!(e.is_initialized);
    assert_eq!(e.state, EscrowState::Created);
    assert_eq!(e.creation_timestamp, T);
    assert_eq!(e.release_timestamp, T + 1000);
    assert_eq!(e.dispute_time_window, 500);
    assert_eq!(e.amount, 1000);
    assert_eq!(e.seller_pubkey, key(SELLER));
    assert_eq!(e.buyer_pubkey, key(BUYER));
    assert_eq!(e.seller_token_account, key(SELLER_TOKEN));
    assert_eq!(e.buyer_token_account, key(BUYER_TOKEN));
    assert_eq!(e.escrow_token_account, key(HOLDING));
    assert_eq!(e.listing_id, key(42));
    assert_eq!(e.transaction_signature, [0u8; 64]);
}

#[test]
fn initialize_keeps_data_past_the_record() {
    let mut data = vec![0u8; ESCROW_LEN + 3];
    data[ESCROW_LEN + 1] = 77;
    let ins = EscrowInstruction::Initialize { amount: 5, release_timestamp: T + 1, dispute_time_window: 1, listing_id: key(1) };
    let eff = run(&init_accounts(), &data, ins, T).unwrap();
    assert_eq!(eff.escrow_data.len(), ESCROW_LEN + 3);
    assert_eq!(eff.escrow_data[ESCROW_LEN + 1], 77);
    assert!(eff.transfer.is_none());
}

#[test]
fn initialize_errors() {
    let ins = || EscrowInstruction::Initialize { amount: 1000, release_timestamp: T + 1000, dispute_time_window: 500, listing_id: key(42) };
    let empty = vec![0u8; ESCROW_LEN];
    let mut no_buyer = init_accounts();
    no_buyer[3].is_signer = false;
    assert_eq!(run(&no_buyer, &empty, ins(), T).unwrap_err(), ProcessError::Escrow(EscrowError::Unauthorized));
    let mut no_seller = init_accounts();
    no_seller[0].is_signer = false;
    assert_eq!(run(&no_seller, &empty, ins(), T).unwrap_err(), ProcessError::Escrow(EscrowError::Unauthorized));
    assert_eq!(run(&init_accounts(), &created(), ins(), T).unwrap_err(), ProcessError::Escrow(EscrowError::EscrowAlreadyInitialized));
    let poor = HostInputs { current_timestamp: T, rent_exempt: false };
    assert_eq!(
        Processor::process(&key(30), &init_accounts(), &empty, &ins().pack(), &poor).unwrap_err(),
        ProcessError::Escrow(EscrowError::NotRentExempt)
    );
    assert_eq!(run(&init_accounts(), &empty, ins(), T + 1000).unwrap_err(), ProcessError::Escrow(EscrowError::ReleaseTimeNotReached));
    assert_eq!(run(&init_accounts(), &vec![0u8; 10], ins(), T).unwrap_err(), ProcessError::AccountDataTooSmall);
    let short: Vec<AccountInput> = init_accounts()[..7].to_vec();
    assert_eq!(run(&short, &empty, ins(), T).unwrap_err(), ProcessError::NotEnoughAccountKeys);
}

#[test]
fn fund_moves_amount_into_holding() {
    let data = created();
    let eff = run(&fund_accounts(BUYER), &data, EscrowInstruction::Fund { transaction_signature: sig(7) }, T + 10).unwrap();
    let e = record(&eff.escrow_data);
    assert_eq!(e.state, EscrowState::Funded);
    assert_eq!(e.transaction_signature, sig(7));
    let t = eff.transfer.unwrap();
    assert_eq!(t.amount, 1000);
    assert_eq!(t.source, key(BUYER_TOKEN));
    assert_eq!(t.destination, key(HOLDING));
    assert_eq!(t.authority, key(BUYER));
    assert_eq!(t.token_program, spl_token::id().to_bytes());
    assert!(t.signer_seeds.is_empty());
    assert_eq!(t.instruction.program_id, spl_token::id().to_bytes());
    assert_eq!(t.instruction.data, vec![3, 0xe8, 0x03, 0, 0, 0, 0, 0, 0]);
    assert_eq!(t.instruction.accounts.len(), 3);
    assert_eq!(t.instruction.accounts[0].pubkey, key(BUYER_TOKEN));
    assert!(t.instruction.accounts[0].is_writable && !t.instruction.accounts[0].is_signer);
    assert_eq!(t.instruction.accounts[1].pubkey, key(HOLDING));
    assert_eq!(t.instruction.accounts[2].pubkey, key(BUYER));
    assert!(t.instruction.accounts[2].is_signer && !t.instruction.accounts[2].is_writable);
}

#[test]
fn transfer_through_other_program_refused() {
    let data = created();
    let mut accounts = fund_accounts(BUYER);
    accounts[4] = AccountInput { key: key(TOKEN_PROGRAM), is_signer: false };
    let r = run(&accounts, &data, EscrowInstruction::Fund { transaction_signature: sig(7) }, T + 10);
    assert_eq!(r.unwrap_err(), ProcessError::IncorrectProgramId);
    let data = funded();
    let mut accounts = payout_accounts(SELLER, SELLER_TOKEN);
    accounts[4] = AccountInput { key: key(TOKEN_PROGRAM), is_signer: false };
    let r = run(&accounts, &data, EscrowInstruction::Release { transaction_signature: sig(8) }, T + 20);
    assert_eq!(r.unwrap_err(), ProcessError::IncorrectProgramId);
}

#[test]
fn fund_errors() {
    let data = created();
    let f = || EscrowInstruction::Fund { transaction_signature: sig(7) };
    assert_eq!(run(&fund_accounts(OTHER), &data, f(), T).unwrap_err(), ProcessError::Escrow(EscrowError::Unauthorized));
    let mut unsigned = fund_accounts(BUYER);
    unsigned[0].is_signer = false;
    assert_eq!(run(&unsigned, &data, f(), T).unwrap_err(), ProcessError::Escrow(EscrowError::Unauthorized));
    let mut wrong_source = fund_accounts(BUYER);
    wrong_source[2] = acct(OTHER, false);
    assert_eq!(run(&wrong_source, &data, f(), T).unwrap_err(), ProcessError::Escrow(EscrowError::InvalidTokenAccount));
    let mut wrong_holding = fund_accounts(BUYER);
    wrong_holding[3] = acct(OTHER, false);
    assert_eq!(run(&wrong_holding, &data, f(), T).unwrap_err(), ProcessError::Escrow(EscrowError::InvalidTokenAccount));
    assert_eq!(run(&fund_accounts(BUYER), &funded(), f(), T).unwrap_err(), ProcessError::Escrow(EscrowError::InvalidEscrowState));
    assert_eq!(run(&fund_accounts(OTHER), &funded(), f(), T).unwrap_err(), ProcessError::Escrow(EscrowError::Unauthorized));
    assert_eq!(run(&fund_accounts(BUYER), &vec![0u8; 3], f(), T).unwrap_err(), ProcessError::InvalidAccountData);
}

#[test]
fn dispute_then_release_after_release_time() {
    let data = funded();
    let eff = run(&dispute_accounts(BUYER), &data, EscrowInstruction::Dispute { reason: String::from("late") }, T + 200).unwrap();
    assert!(eff.transfer.is_none());
    let disputed = eff.escrow_data;
    assert_eq!(record(&disputed).state, EscrowState::Disputed);
    assert_eq!(record(&disputed).transaction_signature, sig(7));

    let early = run(&payout_accounts(SELLER, SELLER_TOKEN), &disputed, EscrowInstruction::Release { transaction_signature: sig(8) }, T + 300);
    assert_eq!(early.unwrap_err(), ProcessError::Escrow(EscrowError::InvalidEscrowState));

    let eff = run(&payout_accounts(SELLER, SELLER_TOKEN), &disputed, EscrowInstruction::Release { transaction_signature: sig(8) }, T + 1000).unwrap();
    let e = record(&eff.escrow_data);
    assert_eq!(e.state, EscrowState::Released);
    assert_eq!(e.transaction_signature, sig(8));
    let t = eff.transfer.unwrap();
    assert_eq!(t.source, key(HOLDING));
    assert_eq!(t.destination, key(SELLER_TOKEN));
    assert_eq!(t.authority, key(ESCROW_ACCOUNT));
    assert_eq!(t.amount, 1000);
    assert_eq!(t.instruction.accounts[2].pubkey, key(ESCROW_ACCOUNT));
    assert!(t.instruction.accounts[2].is_signer);
    assert_eq!(
        t.signer_seeds,
        vec![b"escrow".to_vec(), key(SELLER).to_vec(), key(BUYER).to_vec(), key(42).to_vec(), vec![0u8]]
    );
}

#[test]
fn dispute_after_window_refused() {
    let data = funded();
    let r = run(&dispute_accounts(BUYER), &data, EscrowInstruction::Dispute { reason: String::from("x") }, T + 600);
    assert_eq!(r.unwrap_err(), ProcessError::Escrow(EscrowError::InvalidEscrowState));
    let r = run(&dispute_accounts(BUYER), &data, EscrowInstruction::Dispute { reason: String::from("x") }, T + 500);
    assert_eq!(r.unwrap_err(), ProcessError::Escrow(EscrowError::InvalidEscrowState));
    let r = run(&dispute_accounts(SELLER), &data, EscrowInstruction::Dispute { reason: String::from("x") }, T + 20);
    assert_eq!(r.unwrap_err(), ProcessError::Escrow(EscrowError::Unauthorized));
}

#[test]
fn release_by_stranger_refused() {
    let data = funded();
    let r = run(&payout_accounts(OTHER, SELLER_TOKEN), &data, EscrowInstruction::Release { transaction_signature: sig(8) }, T + 20);
    assert_eq!(r.unwrap_err(), ProcessError::Escrow(EscrowError::Unauthorized));
    let r = run(&payout_accounts(BUYER, SELLER_TOKEN), &data, EscrowInstruction::Release { transaction_signature: sig(8) }, T + 20);
    assert_eq!(r.unwrap_err(), ProcessError::Escrow(EscrowError::Unauthorized));
    assert_eq!(record(&data).state, EscrowState::Funded);
}

#[test]
fn release_to_wrong_account_refused() {
    let data = funded();
    let r = run(&payout_accounts(SELLER, BUYER_TOKEN), &data, EscrowInstruction::Release { transaction_signature: sig(8) }, T + 20);
    assert_eq!(r.unwrap_err(), ProcessError::Escrow(EscrowError::InvalidTokenAccount));
}

#[test]
fn refund_returns_amount_to_buyer() {
    let data = funded();
    let eff = run(&payout_accounts(SELLER, BUYER_TOKEN), &data, EscrowInstruction::Refund { transaction_signature: sig(9) }, T + 20).unwrap();
    assert_eq!(record(&eff.escrow_data).state, EscrowState::Refunded);
    let t = eff.transfer.unwrap();
    assert_eq!(t.destination, key(BUYER_TOKEN));
    assert_eq!(t.source, key(HOLDING));
    assert_eq!(t.signer_seeds.len(), 5);
    let r = run(&payout_accounts(BUYER, BUYER_TOKEN), &data, EscrowInstruction::Refund { transaction_signature: sig(9) }, T + 20);
    assert_eq!(r.unwrap_err(), ProcessError::Escrow(EscrowError::Unauthorized));
}

#[test]
fn nothing_moves_after_completion() {
    let data = funded();
    let done = run(&payout_accounts(SELLER, SELLER_TOKEN), &data, EscrowInstruction::Release { transaction_signature: sig(8) }, T + 20)
        .unwrap()
        .escrow_data;
    let later = T + 5000;
    assert!(run(&payout_accounts(SELLER, SELLER_TOKEN), &done, EscrowInstruction::Release { transaction_signature: sig(8) }, later).is_err());
    assert!(run(&payout_accounts(SELLER, BUYER_TOKEN), &done, EscrowInstruction::Refund { transaction_signature: sig(8) }, later).is_err());
    assert!(run(&fund_accounts(BUYER), &done, EscrowInstruction::Fund { transaction_signature: sig(8) }, later).is_err());
    assert!(run(&dispute_accounts(BUYER), &done, EscrowInstruction::Dispute { reason: String::new() }, T + 30).is_err());
}

#[test]
fn terms_unchanged_through_lifecycle() {
    let before = record(&created());
    let after = record(&funded());
    assert_eq!(before.seller_pubkey, after.seller_pubkey);
    assert_eq!(before.buyer_pubkey, after.buyer_pubkey);
    assert_eq!(before.amount, after.amount);
    assert_eq!(before.seller_token_account, after.seller_token_account);
    assert_eq!(before.buyer_token_account, after.buyer_token_account);
    assert_eq!(before.escrow_token_account, after.escrow_token_account);
}

#[test]
fn undecodable_request_refused() {
    let data = created();
    let r = Processor::process(&key(30), &fund_accounts(BUYER), &data, &vec![9u8], &host(T));
    assert_eq!(r.unwrap_err(), ProcessError::Escrow(EscrowError::InvalidInstruction));
    let r = Processor::process(&key(30), &fund_accounts(BUYER), &data, &vec![], &host(T));
    assert_eq!(r.unwrap_err(), ProcessError::Escrow(EscrowError::InvalidInstruction));
}

#[test]
fn completed_record_cannot_be_reopened() {
    let done = run(&payout_accounts(SELLER, SELLER_TOKEN), &funded(), EscrowInstruction::Release { transaction_signature: sig(8) }, T + 20)
        .unwrap()
        .escrow_data;
    let ins = EscrowInstruction::Initialize { amount: 1, release_timestamp: T + 9000, dispute_time_window: 5, listing_id: key(1) };
    assert_eq!(run(&init_accounts(), &done, ins, T + 30).unwrap_err(), ProcessError::Escrow(EscrowError::EscrowAlreadyInitialized));
}

#[test]
fn dispute_twice_refused() {
    let disputed = run(&dispute_accounts(BUYER), &funded(), EscrowInstruction::Dispute { reason: String::from("a") }, T + 100)
        .unwrap()
        .escrow_data;
    let r = run(&dispute_accounts(BUYER), &disputed, EscrowInstruction::Dispute { reason: String::from("b") }, T + 110);
    assert_eq!(r.unwrap_err(), ProcessError::Escrow(EscrowError::InvalidEscrowState));
    let r = run(&payout_accounts(SELLER, BUYER_TOKEN), &created(), EscrowInstruction::Refund { transaction_signature: sig(8) }, T + 5000);
    assert_eq!(r.unwrap_err(), ProcessError::Escrow(EscrowError::InvalidEscrowState));
}

#[test]
fn initialize_checks_rent_and_time_before_slot() {
    let ins = || EscrowInstruction::Initialize { amount: 1000, release_timestamp: T + 1000, dispute_time_window: 500, listing_id: key(42) };
    let used = created();
    let poor = HostInputs { current_timestamp: T, rent_exempt: false };
    assert_eq!(
        Processor::process(&key(30), &init_accounts(), &used, &ins().pack(), &poor).unwrap_err(),
        ProcessError::Escrow(EscrowError::NotRentExempt)
    );
    assert_eq!(run(&init_accounts(), &used, ins(), T + 1000).unwrap_err(), ProcessError::Escrow(EscrowError::ReleaseTimeNotReached));
    assert_eq!(run(&init_accounts(), &used, ins(), T).unwrap_err(), ProcessError::Escrow(EscrowError::EscrowAlreadyInitialized));
}
