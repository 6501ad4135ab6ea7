use deal_contract::constants::Config;
use deal_contract::errors::{AccessError, DealError, ErrorCodes, InvalidAccount};
use deal_contract::instructions::cancel::Cancel;
use deal_contract::instructions::finish::Finish;
use deal_contract::instructions::initialize::{Initialize, InitializeArgs};
use deal_contract::instructions::partially_pay::{PartiallyPay, PartiallyPayArgs};
use deal_contract::instructions::update_checker::{Party, UpdateChecker};
use deal_contract::instructions::Initializer;
use deal_contract::keys::Key;
use deal_contract::ledger::{Intent, MintSlot, TokenAccount, TokenSlot};
use deal_contract::state::{Bond, Checker, DealState};
use deal_contract::{cancel, finish, initialize, partially_pay, update_checker};

fn key(n: u8) -> Key {
    Key::new([n; 32])
}

const CLIENT: u8 = 1;
const EXECUTOR: u8 = 2;
const CHECKER: u8 = 3;
const PAYER: u8 = 4;
const RECORD: u8 = 5;
const DEAL_MINT: u8 = 10;
const BOND_MINT: u8 = 11;
const SERVICE_MINT: u8 = 12;
const HOLDER_MINT: u8 = 13;
const SERVICE_OWNER: u8 = 20;
const SERVICE: u8 = 21;

const SERVICE_FEE_TA: u8 = 30;
const CLIENT_DEAL_TA: u8 = 31;
const EXECUTOR_DEAL_TA: u8 = 32;
const CUSTODY: u8 = 33;
const CLIENT_BOND_TA: u8 = 34;
const EXECUTOR_BOND_TA: u8 = 35;
const CLIENT_BOND_CUSTODY: u8 = 36;
const EXECUTOR_BOND_CUSTODY: u8 = 37;
const CLIENT_HOLDER_TA: u8 = 38;
const HOLDER_CUSTODY: u8 = 39;
const CHECKER_DEAL_TA: u8 = 40;

const STAKE: u64 = 5_000;

fn config() -> Config {
    Config {
        service_fee_mint: key(DEAL_MINT),
        service_fee_owner: key(SERVICE_OWNER),
        service_account_address: key(SERVICE),
        holder_mint: key(HOLDER_MINT),
        holder_mode_amount: STAKE,
    }
}

fn full(address: u8, mint: u8, owner: u8, amount: u64) -> TokenSlot {
    TokenSlot {
        key: key(address),
        account: Some(TokenAccount { mint: key(mint), owner: key(owner), amount }),
        lamports: 2_039_280,
    }
}

fn empty(address: u8) -> TokenSlot {
    TokenSlot { key: key(address), account: None, lamports: 0 }
}

fn transfer(from: u8, to: u8, authority: u8, amount: u64) -> Intent {
    Intent::Transfer { from: key(from), to: key(to), authority: key(authority), amount }
}

fn close(account: u8, destination: u8) -> Intent {
    Intent::CloseAccount { account: key(account), destination: key(destination), authority: key(RECORD) }
}

fn args(amount: u64) -> InitializeArgs {
    InitializeArgs {
        id: [7; 16],
        deal_amount: amount,
        service_fee: 10,
        deadline_ts: None,
        holder_mode: false,
        client_bond: None,
        executor_bond: None,
        checker_fee: None,
        advance_payment_amount: 0,
    }
}

fn init_accounts() -> Initialize {
    Initialize {
        client: key(CLIENT),
        executor: key(EXECUTOR),
        payer: key(PAYER),
        checker: key(CHECKER),
        deal_mint: key(DEAL_MINT),
        client_bond_mint: MintSlot { key: key(BOND_MINT), initialized: true },
        executor_bond_mint: MintSlot { key: key(BOND_MINT), initialized: true },
        service_mint: key(SERVICE_MINT),
        service_fee_ta: full(SERVICE_FEE_TA, SERVICE_MINT, SERVICE_OWNER, 0),
        client_deal_ta: full(CLIENT_DEAL_TA, DEAL_MINT, CLIENT, 1_000_000),
        executor_deal_ta: full(EXECUTOR_DEAL_TA, DEAL_MINT, EXECUTOR, 0),
        deal_state_deal_ta: full(CUSTODY, DEAL_MINT, RECORD, 0),
        client_bond_ta: full(CLIENT_BOND_TA, BOND_MINT, CLIENT, 1_000),
        executor_bond_ta: full(EXECUTOR_BOND_TA, BOND_MINT, EXECUTOR, 1_000),
        deal_state_client_bond_ta: full(CLIENT_BOND_CUSTODY, BOND_MINT, RECORD, 0),
        deal_state_executor_bond_ta: full(EXECUTOR_BOND_CUSTODY, BOND_MINT, RECORD, 0),
        client_holder_ta: full(CLIENT_HOLDER_TA, HOLDER_MINT, CLIENT, STAKE),
        deal_state_holder_ta: full(HOLDER_CUSTODY, HOLDER_MINT, RECORD, 0),
        deal_state: key(RECORD),
        bump: 254,
    }
}

fn finish_accounts(initializer: u8) -> Finish {
    Finish {
        initializer: key(initializer),
        checker: key(CHECKER),
        payer: key(PAYER),
        deal_state: key(RECORD),
        deal_state_deal_ta: full(CUSTODY, DEAL_MINT, RECORD, 0),
        deal_state_holder_ta: full(HOLDER_CUSTODY, HOLDER_MINT, RECORD, STAKE),
        client_holder_ta: full(CLIENT_HOLDER_TA, HOLDER_MINT, CLIENT, 0),
        executor_deal_ta: full(EXECUTOR_DEAL_TA, DEAL_MINT, EXECUTOR, 0),
        checker_deal_ta: full(CHECKER_DEAL_TA, DEAL_MINT, CHECKER, 0),
        deal_state_client_bond_ta: full(CLIENT_BOND_CUSTODY, BOND_MINT, RECORD, 0),
        deal_state_executor_bond_ta: full(EXECUTOR_BOND_CUSTODY, BOND_MINT, RECORD, 0),
        client_bond_ta: full(CLIENT_BOND_TA, BOND_MINT, CLIENT, 0),
        executor_bond_ta: full(EXECUTOR_BOND_TA, BOND_MINT, EXECUTOR, 0),
        client_bond_mint: key(BOND_MINT),
        executor_bond_mint: key(BOND_MINT),
    }
}

fn cancel_accounts(initializer: u8) -> Cancel {
    Cancel {
        initializer: key(initializer),
        checker: key(CHECKER),
        payer: key(PAYER),
        deal_state: key(RECORD),
        deal_state_deal_ta: full(CUSTODY, DEAL_MINT, RECORD, 0),
        client_deal_ta: full(CLIENT_DEAL_TA, DEAL_MINT, CLIENT, 0),
        client_bond_ta: full(CLIENT_BOND_TA, BOND_MINT, CLIENT, 0),
        executor_bond_ta: full(EXECUTOR_BOND_TA, BOND_MINT, EXECUTOR, 0),
        deal_state_client_bond_ta: full(CLIENT_BOND_CUSTODY, BOND_MINT, RECORD, 0),
        deal_state_executor_bond_ta: full(EXECUTOR_BOND_CUSTODY, BOND_MINT, RECORD, 0),
        client_bond_mint: key(BOND_MINT),
        executor_bond_mint: key(BOND_MINT),
    }
}

fn create(account: u8, mint: u8, owner: u8) -> Intent {
    Intent::CreateAccount { payer: key(PAYER), mint: key(mint), owner: key(owner), account: key(account) }
}

fn record_close(destination: u8) -> Intent {
    Intent::CloseRecord { record: key(RECORD), destination: key(destination) }
}

fn code(e: ErrorCodes) -> DealError {
    DealError::Code(e)
}

fn account(e: InvalidAccount) -> DealError {
    DealError::Account(e)
}

fn access(e: AccessError) -> DealError {
    DealError::Access(e)
}

fn refused_init(accounts: &Initialize, a: &InitializeArgs, now: i64) -> DealError {
    let mut record: Option<DealState> = None;
    let e = initialize(&config(), &mut record, accounts, a, now).unwrap_err();
    assert_eq!(record, None);
    e
}

fn plain_deal() -> DealState {
    DealState {
        id: [7; 16],
        client_key: key(CLIENT),
        executor_key: key(EXECUTOR),
        deal_token_mint: key(DEAL_MINT),
        client_bond: None,
        executor_bond: None,
        checker: None,
        holder_mode: None,
        amount: 1000,
        paid_amount: 0,
        deadline_ts: None,
        bump: [254],
    }
}

fn refused_finish(deal: DealState, accounts: &Finish, now: i64) -> DealError {
    let mut record = Some(deal);
    let e = finish(&config(), &mut record, accounts, now).unwrap_err();
    assert_eq!(record, Some(deal));
    e
}

fn refused_cancel(deal: DealState, accounts: &Cancel, now: i64) -> DealError {
    let mut record = Some(deal);
    let e = cancel(&config(), &mut record, accounts, now).unwrap_err();
    assert_eq!(record, Some(deal));
    e
}

fn pay_accounts() -> PartiallyPay {
    PartiallyPay {
        client: key(CLIENT),
        executor: key(EXECUTOR),
        payer: key(PAYER),
        client_deal_ta: full(CLIENT_DEAL_TA, DEAL_MINT, CLIENT, 1_000_000),
        executor_deal_ta: full(EXECUTOR_DEAL_TA, DEAL_MINT, EXECUTOR, 0),
    }
}

fn update_accounts(initializer: u8) -> UpdateChecker {
    UpdateChecker {
        initializer: key(initializer),
        client: Party { key: key(CLIENT), is_signer: true },
        executor: Party { key: key(EXECUTOR), is_signer: true },
        new_checker: key(CHECKER),
    }
}

fn sent_under(plan: &[Intent], authority: u8) -> u128 {
    let mut sum: u128 = 0;
    for i in plan {
        if let Intent::Transfer { authority: a, amount, .. } = i {
            if *a == key(authority) {
                sum += *amount as u128;
            }
        }
    }
    sum
}

fn received_at(plan: &[Intent], account: u8) -> u128 {
    let mut sum: u128 = 0;
    for i in plan {
        if let Intent::Transfer { to, amount, .. } = i {
            if *to == key(account) {
                sum += *amount as u128;
            }
        }
    }
    sum
}

// ---- initialize ----

#[test]
fn initialize_writes_the_record() {
    let mut record: Option<DealState> = None;
    let mut a = args(1000);
    a.deadline_ts = Some(500);
    a.client_bond = Some(20);
    a.executor_bond = Some(30);
    a.checker_fee = Some(50);
    a.advance_payment_amount = 100;
    initialize(&config(), &mut record, &init_accounts(), &a, 100).unwrap();
    assert_eq!(
        record,
        Some(DealState {
            id: [7; 16],
            client_key: key(CLIENT),
            executor_key: key(EXECUTOR),
            deal_token_mint: key(DEAL_MINT),
            client_bond: Some(Bond { mint: key(BOND_MINT), amount: 20 }),
            executor_bond: Some(Bond { mint: key(BOND_MINT), amount: 30 }),
            checker: Some(Checker { checker_fee: 50, checker_key: key(CHECKER) }),
            holder_mode: None,
            amount: 1000,
            paid_amount: 100,
            deadline_ts: Some(500),
            bump: [254],
        })
    );
    assert!(record.unwrap().is_well_formed());
}

#[test]
fn initialize_refuses_an_existing_record() {
    let mut record = Some(plain_deal());
    let r = initialize(&config(), &mut record, &init_accounts(), &args(1000), 100);
    assert_eq!(r, Err(access(AccessError::RecordExists)));
    assert_eq!(record, Some(plain_deal()));
}

#[test]
fn initialize_refuses_one_party_on_both_sides() {
    let mut accounts = init_accounts();
    accounts.executor = accounts.client;
    assert_eq!(refused_init(&accounts, &args(1000), 100), access(AccessError::SameParty));
}

#[test]
fn initialize_refuses_a_record_at_the_key_of_a_party() {
    let mut accounts = init_accounts();
    accounts.deal_state = accounts.client;
    assert_eq!(refused_init(&accounts, &args(1000), 100), access(AccessError::RecordAddress));
    let mut accounts = init_accounts();
    accounts.deal_state = accounts.executor;
    assert_eq!(refused_init(&accounts, &args(1000), 100), access(AccessError::RecordAddress));
    let mut accounts = init_accounts();
    accounts.deal_state = accounts.checker;
    accounts.deal_state_deal_ta = full(CUSTODY, DEAL_MINT, CHECKER, 0);
    let mut record: Option<DealState> = None;
    assert!(initialize(&config(), &mut record, &accounts, &args(1000), 100).is_ok());
}

#[test]
fn initialize_checks_the_accounts_of_the_deal_asset() {
    let mut accounts = init_accounts();
    accounts.service_fee_ta = full(SERVICE_FEE_TA, SERVICE_MINT, CLIENT, 0);
    assert_eq!(refused_init(&accounts, &args(1000), 100), code(ErrorCodes::InvalidOwner));
    let mut accounts = init_accounts();
    accounts.client_deal_ta = full(CLIENT_DEAL_TA, BOND_MINT, CLIENT, 0);
    assert_eq!(refused_init(&accounts, &args(1000), 100), code(ErrorCodes::InvalidMint));
    let mut accounts = init_accounts();
    accounts.executor_deal_ta = full(EXECUTOR_DEAL_TA, DEAL_MINT, CLIENT, 0);
    assert_eq!(refused_init(&accounts, &args(1000), 100), code(ErrorCodes::InvalidOwner));
    let mut accounts = init_accounts();
    accounts.deal_state_deal_ta = full(CUSTODY, DEAL_MINT, CLIENT, 0);
    assert_eq!(refused_init(&accounts, &args(1000), 100), code(ErrorCodes::InvalidOwner));
}

#[test]
fn initialize_creates_missing_accounts_first() {
    let mut record: Option<DealState> = None;
    let mut accounts = init_accounts();
    accounts.service_fee_ta = empty(SERVICE_FEE_TA);
    accounts.client_deal_ta = empty(CLIENT_DEAL_TA);
    accounts.executor_deal_ta = empty(EXECUTOR_DEAL_TA);
    accounts.deal_state_deal_ta = empty(CUSTODY);
    accounts.deal_state_client_bond_ta = empty(CLIENT_BOND_CUSTODY);
    accounts.deal_state_executor_bond_ta = empty(EXECUTOR_BOND_CUSTODY);
    accounts.deal_state_holder_ta = empty(HOLDER_CUSTODY);
    let mut a = args(1000);
    a.client_bond = Some(20);
    a.executor_bond = Some(30);
    a.holder_mode = true;
    let plan = initialize(&config(), &mut record, &accounts, &a, 100).unwrap();
    assert_eq!(
        plan,
        vec![
            create(SERVICE_FEE_TA, SERVICE_MINT, SERVICE_OWNER),
            create(CLIENT_DEAL_TA, DEAL_MINT, CLIENT),
            create(EXECUTOR_DEAL_TA, DEAL_MINT, EXECUTOR),
            create(CUSTODY, DEAL_MINT, RECORD),
            create(CLIENT_BOND_CUSTODY, BOND_MINT, RECORD),
            create(EXECUTOR_BOND_CUSTODY, BOND_MINT, RECORD),
            create(HOLDER_CUSTODY, HOLDER_MINT, RECORD),
            transfer(CLIENT_HOLDER_TA, HOLDER_CUSTODY, CLIENT, STAKE),
            transfer(CLIENT_DEAL_TA, CUSTODY, CLIENT, 1000),
            transfer(CLIENT_BOND_TA, CLIENT_BOND_CUSTODY, CLIENT, 20),
            transfer(EXECUTOR_BOND_TA, EXECUTOR_BOND_CUSTODY, EXECUTOR, 30),
        ]
    );
}

#[test]
fn initialize_leaves_unused_accounts_alone() {
    let mut record: Option<DealState> = None;
    let mut accounts = init_accounts();
    accounts.client_bond_mint = MintSlot { key: key(BOND_MINT), initialized: false };
    accounts.executor_bond_mint = MintSlot { key: key(BOND_MINT), initialized: false };
    accounts.client_bond_ta = empty(CLIENT_BOND_TA);
    accounts.executor_bond_ta = empty(EXECUTOR_BOND_TA);
    accounts.deal_state_client_bond_ta = empty(CLIENT_BOND_CUSTODY);
    accounts.deal_state_executor_bond_ta = empty(EXECUTOR_BOND_CUSTODY);
    accounts.client_holder_ta = empty(CLIENT_HOLDER_TA);
    accounts.deal_state_holder_ta = empty(HOLDER_CUSTODY);
    let plan = initialize(&config(), &mut record, &accounts, &args(1000), 100).unwrap();
    assert_eq!(
        plan,
        vec![
            transfer(CLIENT_DEAL_TA, SERVICE_FEE_TA, CLIENT, 10),
            transfer(CLIENT_DEAL_TA, CUSTODY, CLIENT, 1000),
        ]
    );
}

#[test]
fn initialize_checks_the_accounts_of_the_client_bond() {
    let mut a = args(1000);
    a.client_bond = Some(20);
    let mut accounts = init_accounts();
    accounts.client_bond_mint.initialized = false;
    assert_eq!(refused_init(&accounts, &a, 100), account(InvalidAccount::ClientBondMint));
    let mut accounts = init_accounts();
    accounts.client_bond_ta = empty(CLIENT_BOND_TA);
    assert_eq!(refused_init(&accounts, &a, 100), account(InvalidAccount::ClientBondTokenAccount));
    accounts.client_bond_ta = full(CLIENT_BOND_TA, BOND_MINT, EXECUTOR, 100);
    assert_eq!(refused_init(&accounts, &a, 100), account(InvalidAccount::ClientBondTokenAccount));
    accounts.client_bond_ta = full(CLIENT_BOND_TA, DEAL_MINT, CLIENT, 100);
    assert_eq!(refused_init(&accounts, &a, 100), account(InvalidAccount::ClientBondTokenAccount));
    let mut accounts = init_accounts();
    accounts.deal_state_client_bond_ta = full(CLIENT_BOND_CUSTODY, BOND_MINT, CLIENT, 0);
    assert_eq!(
        refused_init(&accounts, &a, 100),
        account(InvalidAccount::DealStateClientBondTokenAccount)
    );
}

#[test]
fn initialize_checks_the_accounts_of_the_executor_bond() {
    let mut a = args(1000);
    a.executor_bond = Some(20);
    let mut accounts = init_accounts();
    accounts.executor_bond_mint.initialized = false;
    assert_eq!(refused_init(&accounts, &a, 100), account(InvalidAccount::ExecutorBondMint));
    let mut accounts = init_accounts();
    accounts.executor_bond_ta = empty(EXECUTOR_BOND_TA);
    assert_eq!(refused_init(&accounts, &a, 100), account(InvalidAccount::ExecutorBondTokenAccount));
    accounts.executor_bond_ta = full(EXECUTOR_BOND_TA, BOND_MINT, CLIENT, 100);
    assert_eq!(refused_init(&accounts, &a, 100), account(InvalidAccount::ExecutorBondTokenAccount));
    let mut accounts = init_accounts();
    accounts.deal_state_executor_bond_ta = full(EXECUTOR_BOND_CUSTODY, DEAL_MINT, RECORD, 0);
    assert_eq!(
        refused_init(&accounts, &a, 100),
        account(InvalidAccount::DealStateExecutorBondTokenAccount)
    );
}

#[test]
fn holder_mode_needs_the_stake_and_the_eligible_asset() {
    let mut a = args(1000);
    a.holder_mode = true;
    a.service_fee = 0;
    let mut accounts = init_accounts();
    accounts.client_holder_ta = empty(CLIENT_HOLDER_TA);
    assert_eq!(refused_init(&accounts, &a, 100), account(InvalidAccount::ClientHolderTokenAccount));
    accounts.client_holder_ta = full(CLIENT_HOLDER_TA, HOLDER_MINT, EXECUTOR, STAKE);
    assert_eq!(refused_init(&accounts, &a, 100), account(InvalidAccount::ClientHolderTokenAccount));
    accounts.client_holder_ta = full(CLIENT_HOLDER_TA, HOLDER_MINT, CLIENT, STAKE - 1);
    assert_eq!(refused_init(&accounts, &a, 100), code(ErrorCodes::HolderModeUnavailable));
    accounts.client_holder_ta = full(CLIENT_HOLDER_TA, HOLDER_MINT, CLIENT, STAKE);
    let mut record: Option<DealState> = None;
    assert!(initialize(&config(), &mut record, &accounts, &a, 100).is_ok());

    let mut other_asset = init_accounts();
    other_asset.deal_mint = key(BOND_MINT);
    other_asset.client_deal_ta = full(CLIENT_DEAL_TA, BOND_MINT, CLIENT, 0);
    other_asset.executor_deal_ta = full(EXECUTOR_DEAL_TA, BOND_MINT, EXECUTOR, 0);
    other_asset.deal_state_deal_ta = full(CUSTODY, BOND_MINT, RECORD, 0);
    assert_eq!(refused_init(&other_asset, &a, 100), code(ErrorCodes::HolderModeUnavailable));

    let mut accounts = init_accounts();
    accounts.deal_state_holder_ta = full(HOLDER_CUSTODY, HOLDER_MINT, CLIENT, 0);
    assert_eq!(
        refused_init(&accounts, &a, 100),
        account(InvalidAccount::DealStateHolderTokenAccount)
    );
}

#[test]
fn initialize_refuses_a_deadline_that_has_come() {
    let mut a = args(1000);
    a.deadline_ts = Some(99);
    assert_eq!(refused_init(&init_accounts(), &a, 100), code(ErrorCodes::DeadlineExpired));
    a.deadline_ts = Some(100);
    assert_eq!(refused_init(&init_accounts(), &a, 100), code(ErrorCodes::DeadlineExpired));
    a.deadline_ts = Some(101);
    let mut record: Option<DealState> = None;
    assert!(initialize(&config(), &mut record, &init_accounts(), &a, 100).is_ok());
}

#[test]
fn a_new_deal_cannot_be_cancelled_at_once() {
    let cfg = config();
    let mut a = args(1000);
    a.deadline_ts = Some(101);
    let mut record: Option<DealState> = None;
    initialize(&cfg, &mut record, &init_accounts(), &a, 100).unwrap();
    let before = record;
    for who in [CLIENT, EXECUTOR, SERVICE] {
        let r = cancel(&cfg, &mut record, &cancel_accounts(who), 100);
        assert_eq!(r, Err(code(ErrorCodes::DeadlineNotExpired)));
        assert_eq!(record, before);
    }
    assert!(cancel(&cfg, &mut record, &cancel_accounts(CLIENT), 101).is_ok());
    assert_eq!(record, None);
}

#[test]
fn initialize_refuses_an_empty_principal() {
    assert_eq!(refused_init(&init_accounts(), &args(0), 100), code(ErrorCodes::AmountTooLow));
}

#[test]
fn initialize_refuses_a_deal_without_fee_or_stake() {
    let mut a = args(1000);
    a.service_fee = 0;
    assert_eq!(refused_init(&init_accounts(), &a, 100), code(ErrorCodes::FeeIsTooLow));
}

#[test]
fn advance_must_stay_below_principal_less_fee() {
    let mut a = args(1000);
    a.checker_fee = Some(50);
    a.advance_payment_amount = 950;
    assert_eq!(refused_init(&init_accounts(), &a, 100), code(ErrorCodes::AdvancePaymentExceeded));
    a.advance_payment_amount = 1000;
    assert_eq!(refused_init(&init_accounts(), &a, 100), code(ErrorCodes::AdvancePaymentExceeded));
    a.advance_payment_amount = 949;
    let mut record: Option<DealState> = None;
    let plan = initialize(&config(), &mut record, &init_accounts(), &a, 100).unwrap();
    assert_eq!(plan[2], transfer(CUSTODY, EXECUTOR_DEAL_TA, RECORD, 949));
    a.advance_payment_amount = 0;
    a.checker_fee = Some(1000);
    assert_eq!(refused_init(&init_accounts(), &a, 100), code(ErrorCodes::AdvancePaymentExceeded));
    a.checker_fee = Some(1001);
    assert_eq!(refused_init(&init_accounts(), &a, 100), code(ErrorCodes::AdvancePaymentExceeded));
}

#[test]
fn initialize_refuses_a_deposit_that_no_account_can_hold() {
    let mut a = args(u64::MAX);
    a.checker_fee = Some(1);
    assert_eq!(refused_init(&init_accounts(), &a, 100), code(ErrorCodes::AmountOverflow));
    a.checker_fee = Some(0);
    let mut record: Option<DealState> = None;
    let plan = initialize(&config(), &mut record, &init_accounts(), &a, 100).unwrap();
    assert_eq!(plan[1], transfer(CLIENT_DEAL_TA, CUSTODY, CLIENT, u64::MAX));
}

#[test]
fn errors_of_initialize_come_in_order() {
    let mut a = args(0);
    a.service_fee = 0;
    a.deadline_ts = Some(1);
    assert_eq!(refused_init(&init_accounts(), &a, 100), code(ErrorCodes::DeadlineExpired));
    a.deadline_ts = None;
    assert_eq!(refused_init(&init_accounts(), &a, 100), code(ErrorCodes::AmountTooLow));
    a.deal_amount = 5;
    a.advance_payment_amount = 5;
    assert_eq!(refused_init(&init_accounts(), &a, 100), code(ErrorCodes::FeeIsTooLow));
    a.service_fee = 1;
    assert_eq!(refused_init(&init_accounts(), &a, 100), code(ErrorCodes::AdvancePaymentExceeded));
}

#[test]
fn a_bond_of_nothing_is_recorded_and_not_moved() {
    let mut record: Option<DealState> = None;
    let mut a = args(1000);
    a.client_bond = Some(0);
    let plan = initialize(&config(), &mut record, &init_accounts(), &a, 100).unwrap();
    assert_eq!(
        plan,
        vec![
            transfer(CLIENT_DEAL_TA, SERVICE_FEE_TA, CLIENT, 10),
            transfer(CLIENT_DEAL_TA, CUSTODY, CLIENT, 1000),
        ]
    );
    assert_eq!(record.unwrap().client_bond, Some(Bond { mint: key(BOND_MINT), amount: 0 }));
    let plan = finish(&config(), &mut record, &finish_accounts(EXECUTOR), 100).unwrap();
    assert_eq!(
        plan,
        vec![
            transfer(CUSTODY, EXECUTOR_DEAL_TA, RECORD, 1000),
            close(CLIENT_BOND_CUSTODY, SERVICE_OWNER),
            close(CUSTODY, SERVICE_OWNER),
            record_close(SERVICE_OWNER),
        ]
    );
}

#[test]
fn initialization_takes_from_each_party_what_it_owes() {
    let mut record: Option<DealState> = None;
    let mut a = args(1000);
    a.checker_fee = Some(50);
    a.client_bond = Some(200);
    a.executor_bond = Some(300);
    let plan = initialize(&config(), &mut record, &init_accounts(), &a, 100).unwrap();
    assert_eq!(sent_under(&plan, CLIENT), 1000 + 50 + 10 + 200);
    assert_eq!(sent_under(&plan, EXECUTOR), 300);
    assert_eq!(sent_under(&plan, RECORD), 0);
    assert_eq!(sent_under(&plan, CHECKER), 0);
    assert_eq!(sent_under(&plan, PAYER), 0);

    let mut record: Option<DealState> = None;
    a.holder_mode = true;
    a.advance_payment_amount = 40;
    let plan = initialize(&config(), &mut record, &init_accounts(), &a, 100).unwrap();
    assert_eq!(sent_under(&plan, CLIENT), 1000 + 50 + STAKE as u128 + 200);
    assert_eq!(sent_under(&plan, EXECUTOR), 300);
    assert_eq!(sent_under(&plan, RECORD), 40);
}

// ---- partial payment ----

#[test]
fn partial_payments_add_up() {
    let mut record = Some(plain_deal());
    let plan = partially_pay(&mut record, &pay_accounts(), &PartiallyPayArgs { amount: 300 }).unwrap();
    assert_eq!(plan, vec![transfer(CLIENT_DEAL_TA, EXECUTOR_DEAL_TA, CLIENT, 300)]);
    assert_eq!(record.unwrap().paid_amount, 300);
    partially_pay(&mut record, &pay_accounts(), &PartiallyPayArgs { amount: 200 }).unwrap();
    assert_eq!(record.unwrap().paid_amount, 500);
    assert_eq!(record.unwrap().amount, 1000);
    let plan = finish(&config(), &mut record, &finish_accounts(EXECUTOR), 0).unwrap();
    assert_eq!(plan[0], transfer(CUSTODY, EXECUTOR_DEAL_TA, RECORD, 500));
    assert_eq!(received_at(&plan, EXECUTOR_DEAL_TA), 500);
}

#[test]
fn partial_payment_cannot_exceed_what_is_owed() {
    let mut record = Some(plain_deal());
    partially_pay(&mut record, &pay_accounts(), &PartiallyPayArgs { amount: 999 }).unwrap();
    let before = record;
    let r = partially_pay(&mut record, &pay_accounts(), &PartiallyPayArgs { amount: 2 });
    assert_eq!(r, Err(code(ErrorCodes::AdvancePaymentExceeded)));
    assert_eq!(record, before);
    let r = partially_pay(&mut record, &pay_accounts(), &PartiallyPayArgs { amount: u64::MAX });
    assert_eq!(r, Err(code(ErrorCodes::AdvancePaymentExceeded)));
    assert_eq!(record, before);
    partially_pay(&mut record, &pay_accounts(), &PartiallyPayArgs { amount: 1 }).unwrap();
    assert_eq!(record.unwrap().paid_amount, 1000);
    let plan = finish(&config(), &mut record, &finish_accounts(EXECUTOR), 0).unwrap();
    assert_eq!(plan, vec![close(CUSTODY, SERVICE_OWNER), record_close(SERVICE_OWNER)]);
}

#[test]
fn partial_payment_of_nothing_changes_nothing_but_is_planned() {
    let mut record = Some(plain_deal());
    let plan = partially_pay(&mut record, &pay_accounts(), &PartiallyPayArgs { amount: 0 }).unwrap();
    assert_eq!(plan, vec![transfer(CLIENT_DEAL_TA, EXECUTOR_DEAL_TA, CLIENT, 0)]);
    assert_eq!(record, Some(plain_deal()));
}

#[test]
fn partial_payment_is_for_the_parties_of_the_deal() {
    let mut record: Option<DealState> = None;
    let r = partially_pay(&mut record, &pay_accounts(), &PartiallyPayArgs { amount: 1 });
    assert_eq!(r, Err(access(AccessError::RecordNotFound)));
    let mut record = Some(plain_deal());
    let mut accounts = pay_accounts();
    accounts.client = key(EXECUTOR);
    let r = partially_pay(&mut record, &accounts, &PartiallyPayArgs { amount: 1 });
    assert_eq!(r, Err(access(AccessError::ClientMismatch)));
    let mut accounts = pay_accounts();
    accounts.executor = key(CHECKER);
    let r = partially_pay(&mut record, &accounts, &PartiallyPayArgs { amount: 1 });
    assert_eq!(r, Err(access(AccessError::ExecutorMismatch)));
    let mut accounts = pay_accounts();
    accounts.client_deal_ta = empty(CLIENT_DEAL_TA);
    let r = partially_pay(&mut record, &accounts, &PartiallyPayArgs { amount: 1 });
    assert_eq!(r, Err(access(AccessError::NotInitialized)));
    accounts.client_deal_ta = full(CLIENT_DEAL_TA, BOND_MINT, CLIENT, 10);
    let r = partially_pay(&mut record, &accounts, &PartiallyPayArgs { amount: 1 });
    assert_eq!(r, Err(code(ErrorCodes::InvalidMint)));
    let mut accounts = pay_accounts();
    accounts.executor_deal_ta = full(EXECUTOR_DEAL_TA, DEAL_MINT, CLIENT, 10);
    let r = partially_pay(&mut record, &accounts, &PartiallyPayArgs { amount: 1 });
    assert_eq!(r, Err(code(ErrorCodes::InvalidOwner)));
    assert_eq!(record, Some(plain_deal()));
    let mut accounts = pay_accounts();
    accounts.executor_deal_ta = empty(EXECUTOR_DEAL_TA);
    let plan = partially_pay(&mut record, &accounts, &PartiallyPayArgs { amount: 1 }).unwrap();
    assert_eq!(
        plan,
        vec![
            create(EXECUTOR_DEAL_TA, DEAL_MINT, EXECUTOR),
            transfer(CLIENT_DEAL_TA, EXECUTOR_DEAL_TA, CLIENT, 1),
        ]
    );
}

// ---- checker update ----

#[test]
fn parties_assign_a_checker_together() {
    let mut record = Some(plain_deal());
    update_checker(&config(), &mut record, &update_accounts(CLIENT), 25).unwrap();
    assert_eq!(record.unwrap().checker, Some(Checker { checker_fee: 25, checker_key: key(CHECKER) }));
    let mut expected = plain_deal();
    expected.checker = Some(Checker { checker_fee: 25, checker_key: key(CHECKER) });
    assert_eq!(record, Some(expected));
}

#[test]
fn an_assigned_checker_stays() {
    let mut deal = plain_deal();
    deal.checker = Some(Checker { checker_fee: 25, checker_key: key(CHECKER) });
    let mut record = Some(deal);
    let mut accounts = update_accounts(CLIENT);
    accounts.new_checker = key(PAYER);
    let r = update_checker(&config(), &mut record, &accounts, 1);
    assert_eq!(r, Err(code(ErrorCodes::DealStateWithChecker)));
    assert_eq!(record, Some(deal));
    accounts.initializer = key(CHECKER);
    let r = update_checker(&config(), &mut record, &accounts, 1);
    assert_eq!(r, Err(code(ErrorCodes::DealStateWithChecker)));
}

#[test]
fn the_service_replaces_a_checker_alone() {
    let mut deal = plain_deal();
    deal.checker = Some(Checker { checker_fee: 25, checker_key: key(CHECKER) });
    let mut record = Some(deal);
    let mut accounts = update_accounts(SERVICE);
    accounts.client.is_signer = false;
    accounts.executor.is_signer = false;
    accounts.new_checker = key(PAYER);
    update_checker(&config(), &mut record, &accounts, 5).unwrap();
    assert_eq!(record.unwrap().checker, Some(Checker { checker_fee: 5, checker_key: key(PAYER) }));
}

#[test]
fn checker_update_needs_both_signatures() {
    let mut record = Some(plain_deal());
    let mut accounts = update_accounts(CLIENT);
    accounts.executor.is_signer = false;
    let r = update_checker(&config(), &mut record, &accounts, 5);
    assert_eq!(r, Err(access(AccessError::NotSigner)));
    let mut accounts = update_accounts(EXECUTOR);
    accounts.client.is_signer = false;
    let r = update_checker(&config(), &mut record, &accounts, 5);
    assert_eq!(r, Err(access(AccessError::NotSigner)));
    assert_eq!(record, Some(plain_deal()));
}

#[test]
fn checker_update_names_the_parties_of_the_deal() {
    let mut record: Option<DealState> = None;
    let r = update_checker(&config(), &mut record, &update_accounts(CLIENT), 5);
    assert_eq!(r, Err(access(AccessError::RecordNotFound)));
    let mut record = Some(plain_deal());
    let mut accounts = update_accounts(SERVICE);
    accounts.client.key = key(PAYER);
    let r = update_checker(&config(), &mut record, &accounts, 5);
    assert_eq!(r, Err(access(AccessError::ClientMismatch)));
    let mut accounts = update_accounts(SERVICE);
    accounts.executor.key = key(PAYER);
    let r = update_checker(&config(), &mut record, &accounts, 5);
    assert_eq!(r, Err(access(AccessError::ExecutorMismatch)));
}

#[test]
fn checker_fee_must_fit_beside_the_principal() {
    let mut record = Some(plain_deal());
    let r = update_checker(&config(), &mut record, &update_accounts(CLIENT), u64::MAX - 999);
    assert_eq!(r, Err(code(ErrorCodes::AmountOverflow)));
    assert_eq!(record, Some(plain_deal()));
    update_checker(&config(), &mut record, &update_accounts(CLIENT), u64::MAX - 1000).unwrap();
    assert!(record.unwrap().is_well_formed());
}

// ---- roles ----

#[test]
fn parts_are_found_checker_first() {
    let cfg = config();
    let mut deal = plain_deal();
    assert_eq!(Initializer::try_from(&cfg, &deal, &key(CLIENT)), Ok(Initializer::Client));
    assert_eq!(Initializer::try_from(&cfg, &deal, &key(EXECUTOR)), Ok(Initializer::Executor));
    assert_eq!(Initializer::try_from(&cfg, &deal, &key(SERVICE)), Ok(Initializer::Service));
    assert_eq!(
        Initializer::try_from(&cfg, &deal, &key(CHECKER)),
        Err(account(InvalidAccount::Initializer))
    );
    deal.checker = Some(Checker { checker_fee: 1, checker_key: key(CHECKER) });
    assert_eq!(Initializer::try_from(&cfg, &deal, &key(CHECKER)), Ok(Initializer::Checker));
    deal.checker = Some(Checker { checker_fee: 1, checker_key: key(EXECUTOR) });
    assert_eq!(Initializer::try_from(&cfg, &deal, &key(EXECUTOR)), Ok(Initializer::Checker));
    assert_eq!(
        Initializer::try_from(&cfg, &deal, &key(PAYER)),
        Err(account(InvalidAccount::Initializer))
    );
}

// ---- finish ----

#[test]
fn finish_is_for_executor_and_checker() {
    let mut deal = plain_deal();
    deal.checker = Some(Checker { checker_fee: 50, checker_key: key(CHECKER) });
    assert_eq!(refused_finish(deal, &finish_accounts(CLIENT), 0), account(InvalidAccount::Initializer));
    assert_eq!(refused_finish(deal, &finish_accounts(SERVICE), 0), account(InvalidAccount::Initializer));
    assert_eq!(refused_finish(deal, &finish_accounts(PAYER), 0), account(InvalidAccount::Initializer));
    let mut record = Some(deal);
    assert!(finish(&config(), &mut record, &finish_accounts(CHECKER), 0).is_ok());
    let mut record = Some(deal);
    assert!(finish(&config(), &mut record, &finish_accounts(EXECUTOR), 0).is_ok());
    assert_eq!(
        refused_finish(plain_deal(), &finish_accounts(CHECKER), 0),
        account(InvalidAccount::Initializer)
    );
}

#[test]
fn the_checker_waits_for_the_deadline_and_the_executor_does_not() {
    let mut deal = plain_deal();
    deal.checker = Some(Checker { checker_fee: 50, checker_key: key(CHECKER) });
    deal.deadline_ts = Some(500);
    assert_eq!(
        refused_finish(deal, &finish_accounts(CHECKER), 499),
        code(ErrorCodes::DeadlineNotExpired)
    );
    let mut record = Some(deal);
    assert!(finish(&config(), &mut record, &finish_accounts(CHECKER), 500).is_ok());
    assert_eq!(record, None);
    let mut record = Some(deal);
    assert!(finish(&config(), &mut record, &finish_accounts(EXECUTOR), 499).is_ok());
    assert_eq!(record, None);
}

#[test]
fn finish_returns_bonds_and_closes_their_custody() {
    let mut deal = plain_deal();
    deal.client_bond = Some(Bond { mint: key(BOND_MINT), amount: 200 });
    deal.executor_bond = Some(Bond { mint: key(BOND_MINT), amount: 300 });
    deal.checker = Some(Checker { checker_fee: 50, checker_key: key(CHECKER) });
    deal.holder_mode = Some(STAKE);
    deal.paid_amount = 100;
    let mut accounts = finish_accounts(EXECUTOR);
    accounts.client_holder_ta = empty(CLIENT_HOLDER_TA);
    accounts.checker_deal_ta = empty(CHECKER_DEAL_TA);
    accounts.executor_deal_ta = empty(EXECUTOR_DEAL_TA);
    accounts.client_bond_ta = empty(CLIENT_BOND_TA);
    accounts.executor_bond_ta = empty(EXECUTOR_BOND_TA);
    let mut record = Some(deal);
    let plan = finish(&config(), &mut record, &accounts, 0).unwrap();
    assert_eq!(
        plan,
        vec![
            create(EXECUTOR_DEAL_TA, DEAL_MINT, EXECUTOR),
            create(CLIENT_HOLDER_TA, HOLDER_MINT, CLIENT),
            create(CHECKER_DEAL_TA, DEAL_MINT, CHECKER),
            create(CLIENT_BOND_TA, BOND_MINT, CLIENT),
            create(EXECUTOR_BOND_TA, BOND_MINT, EXECUTOR),
            transfer(CUSTODY, EXECUTOR_DEAL_TA, RECORD, 900),
            transfer(CUSTODY, CHECKER_DEAL_TA, RECORD, 50),
            transfer(CLIENT_BOND_CUSTODY, CLIENT_BOND_TA, RECORD, 200),
            transfer(EXECUTOR_BOND_CUSTODY, EXECUTOR_BOND_TA, RECORD, 300),
            close(CLIENT_BOND_CUSTODY, SERVICE_OWNER),
            close(EXECUTOR_BOND_CUSTODY, SERVICE_OWNER),
            transfer(HOLDER_CUSTODY, CLIENT_HOLDER_TA, RECORD, STAKE),
            close(CUSTODY, SERVICE_OWNER),
            record_close(SERVICE_OWNER),
        ]
    );
    assert_eq!(received_at(&plan, EXECUTOR_DEAL_TA), 900);
    assert_eq!(received_at(&plan, CHECKER_DEAL_TA), 50);
    assert_eq!(received_at(&plan, CLIENT_BOND_TA), 200);
    assert_eq!(received_at(&plan, EXECUTOR_BOND_TA), 300);
    assert_eq!(received_at(&plan, CLIENT_HOLDER_TA), STAKE as u128);
    assert_eq!(received_at(&plan, CLIENT_DEAL_TA), 0);
}

#[test]
fn shared_custody_is_closed_once() {
    let mut deal = plain_deal();
    deal.client_bond = Some(Bond { mint: key(BOND_MINT), amount: 200 });
    deal.executor_bond = Some(Bond { mint: key(BOND_MINT), amount: 300 });
    let mut accounts = finish_accounts(EXECUTOR);
    accounts.deal_state_executor_bond_ta = accounts.deal_state_client_bond_ta;
    let mut record = Some(deal);
    let plan = finish(&config(), &mut record, &accounts, 0).unwrap();
    assert_eq!(
        plan,
        vec![
            transfer(CUSTODY, EXECUTOR_DEAL_TA, RECORD, 1000),
            transfer(CLIENT_BOND_CUSTODY, CLIENT_BOND_TA, RECORD, 200),
            transfer(CLIENT_BOND_CUSTODY, EXECUTOR_BOND_TA, RECORD, 300),
            close(CLIENT_BOND_CUSTODY, SERVICE_OWNER),
            close(CUSTODY, SERVICE_OWNER),
            record_close(SERVICE_OWNER),
        ]
    );

    let mut deal = plain_deal();
    deal.executor_bond = Some(Bond { mint: key(DEAL_MINT), amount: 300 });
    let mut accounts = finish_accounts(EXECUTOR);
    accounts.executor_bond_mint = key(DEAL_MINT);
    accounts.deal_state_executor_bond_ta = accounts.deal_state_deal_ta;
    accounts.executor_bond_ta = accounts.executor_deal_ta;
    let mut record = Some(deal);
    let plan = finish(&config(), &mut record, &accounts, 0).unwrap();
    assert_eq!(
        plan,
        vec![
            transfer(CUSTODY, EXECUTOR_DEAL_TA, RECORD, 1000),
            transfer(CUSTODY, EXECUTOR_DEAL_TA, RECORD, 300),
            close(CUSTODY, SERVICE_OWNER),
            record_close(SERVICE_OWNER),
        ]
    );
}

#[test]
fn custody_without_a_deposit_is_not_closed() {
    let mut accounts = finish_accounts(EXECUTOR);
    accounts.deal_state_deal_ta.lamports = 0;
    let mut record = Some(plain_deal());
    let plan = finish(&config(), &mut record, &accounts, 0).unwrap();
    assert_eq!(
        plan,
        vec![transfer(CUSTODY, EXECUTOR_DEAL_TA, RECORD, 1000), record_close(SERVICE_OWNER)]
    );
}

#[test]
fn finish_checks_the_accounts() {
    let mut deal = plain_deal();
    let mut accounts = finish_accounts(EXECUTOR);
    accounts.deal_state_deal_ta = empty(CUSTODY);
    assert_eq!(refused_finish(deal, &accounts, 0), access(AccessError::NotInitialized));
    accounts.deal_state_deal_ta = full(CUSTODY, BOND_MINT, RECORD, 0);
    assert_eq!(refused_finish(deal, &accounts, 0), code(ErrorCodes::InvalidMint));
    accounts.deal_state_deal_ta = full(CUSTODY, DEAL_MINT, CLIENT, 0);
    assert_eq!(refused_finish(deal, &accounts, 0), code(ErrorCodes::InvalidOwner));
    let mut accounts = finish_accounts(EXECUTOR);
    accounts.executor_deal_ta = full(EXECUTOR_DEAL_TA, DEAL_MINT, CLIENT, 0);
    assert_eq!(refused_finish(deal, &accounts, 0), code(ErrorCodes::InvalidOwner));

    deal.holder_mode = Some(STAKE);
    let mut accounts = finish_accounts(EXECUTOR);
    accounts.deal_state_holder_ta = empty(HOLDER_CUSTODY);
    assert_eq!(
        refused_finish(deal, &accounts, 0),
        account(InvalidAccount::DealStateHolderTokenAccount)
    );
    let mut accounts = finish_accounts(EXECUTOR);
    accounts.client_holder_ta = full(CLIENT_HOLDER_TA, HOLDER_MINT, EXECUTOR, 0);
    assert_eq!(
        refused_finish(deal, &accounts, 0),
        account(InvalidAccount::DealStateHolderTokenAccount)
    );

    let mut deal = plain_deal();
    deal.checker = Some(Checker { checker_fee: 50, checker_key: key(CHECKER) });
    let mut accounts = finish_accounts(EXECUTOR);
    accounts.checker = key(PAYER);
    assert_eq!(refused_finish(deal, &accounts, 0), account(InvalidAccount::Checker));
    let mut accounts = finish_accounts(EXECUTOR);
    accounts.checker_deal_ta = full(CHECKER_DEAL_TA, DEAL_MINT, EXECUTOR, 0);
    assert_eq!(refused_finish(deal, &accounts, 0), account(InvalidAccount::CheckerDealTokenAccount));

    let mut deal = plain_deal();
    deal.client_bond = Some(Bond { mint: key(BOND_MINT), amount: 200 });
    let mut accounts = finish_accounts(EXECUTOR);
    accounts.client_bond_mint = key(DEAL_MINT);
    assert_eq!(refused_finish(deal, &accounts, 0), account(InvalidAccount::ClientBondMint));
    let mut accounts = finish_accounts(EXECUTOR);
    accounts.deal_state_client_bond_ta = empty(CLIENT_BOND_CUSTODY);
    assert_eq!(
        refused_finish(deal, &accounts, 0),
        account(InvalidAccount::DealStateClientBondTokenAccount)
    );
    let mut accounts = finish_accounts(EXECUTOR);
    accounts.client_bond_ta = full(CLIENT_BOND_TA, BOND_MINT, EXECUTOR, 0);
    assert_eq!(refused_finish(deal, &accounts, 0), account(InvalidAccount::ClientBondTokenAccount));

    let mut deal = plain_deal();
    deal.executor_bond = Some(Bond { mint: key(BOND_MINT), amount: 200 });
    let mut accounts = finish_accounts(EXECUTOR);
    accounts.executor_bond_mint = key(DEAL_MINT);
    assert_eq!(refused_finish(deal, &accounts, 0), account(InvalidAccount::ExecutorBondMint));
    let mut accounts = finish_accounts(EXECUTOR);
    accounts.deal_state_executor_bond_ta = full(EXECUTOR_BOND_CUSTODY, BOND_MINT, EXECUTOR, 0);
    assert_eq!(
        refused_finish(deal, &accounts, 0),
        account(InvalidAccount::DealStateExecutorBondTokenAccount)
    );
    let mut accounts = finish_accounts(EXECUTOR);
    accounts.executor_bond_ta = full(EXECUTOR_BOND_TA, DEAL_MINT, EXECUTOR, 0);
    assert_eq!(refused_finish(deal, &accounts, 0), account(InvalidAccount::ExecutorBondTokenAccount));
}

// ---- cancel ----

#[test]
fn cancel_is_for_every_part_and_nobody_else() {
    let mut deal = plain_deal();
    deal.checker = Some(Checker { checker_fee: 50, checker_key: key(CHECKER) });
    for who in [CLIENT, EXECUTOR, CHECKER, SERVICE] {
        let mut record = Some(deal);
        let plan = cancel(&config(), &mut record, &cancel_accounts(who), 0).unwrap();
        assert_eq!(
            plan,
            vec![
                transfer(CUSTODY, CLIENT_DEAL_TA, RECORD, 1050),
                close(CUSTODY, SERVICE_OWNER),
                record_close(who),
            ]
        );
        assert_eq!(record, None);
    }
    assert_eq!(refused_cancel(deal, &cancel_accounts(PAYER), 0), account(InvalidAccount::Initializer));
    assert_eq!(
        refused_cancel(plain_deal(), &cancel_accounts(CHECKER), 0),
        account(InvalidAccount::Initializer)
    );
}

#[test]
fn cancel_pays_the_client_and_the_bond_owners_only() {
    let mut deal = plain_deal();
    deal.checker = Some(Checker { checker_fee: 50, checker_key: key(CHECKER) });
    deal.client_bond = Some(Bond { mint: key(BOND_MINT), amount: 200 });
    deal.executor_bond = Some(Bond { mint: key(BOND_MINT), amount: 300 });
    deal.paid_amount = 100;
    let mut accounts = cancel_accounts(SERVICE);
    accounts.client_deal_ta = empty(CLIENT_DEAL_TA);
    accounts.client_bond_ta = empty(CLIENT_BOND_TA);
    accounts.executor_bond_ta = empty(EXECUTOR_BOND_TA);
    let mut record = Some(deal);
    let plan = cancel(&config(), &mut record, &accounts, 0).unwrap();
    assert_eq!(
        plan,
        vec![
            create(CLIENT_DEAL_TA, DEAL_MINT, CLIENT),
            create(CLIENT_BOND_TA, BOND_MINT, CLIENT),
            create(EXECUTOR_BOND_TA, BOND_MINT, EXECUTOR),
            transfer(CUSTODY, CLIENT_DEAL_TA, RECORD, 1050),
            transfer(CLIENT_BOND_CUSTODY, CLIENT_BOND_TA, RECORD, 200),
            transfer(EXECUTOR_BOND_CUSTODY, EXECUTOR_BOND_TA, RECORD, 300),
            close(CLIENT_BOND_CUSTODY, CLIENT),
            close(EXECUTOR_BOND_CUSTODY, CLIENT),
            close(CUSTODY, SERVICE_OWNER),
            record_close(SERVICE),
        ]
    );
    assert_eq!(received_at(&plan, CLIENT_DEAL_TA), 1050);
    assert_eq!(received_at(&plan, CLIENT_BOND_TA), 200);
    assert_eq!(received_at(&plan, EXECUTOR_BOND_TA), 300);
    assert_eq!(received_at(&plan, EXECUTOR_DEAL_TA), 0);
    assert_eq!(received_at(&plan, CHECKER_DEAL_TA), 0);
}

#[test]
fn nobody_cancels_before_the_deadline() {
    let mut deal = plain_deal();
    deal.checker = Some(Checker { checker_fee: 50, checker_key: key(CHECKER) });
    deal.deadline_ts = Some(500);
    for who in [CLIENT, EXECUTOR, CHECKER, SERVICE] {
        assert_eq!(
            refused_cancel(deal, &cancel_accounts(who), 499),
            code(ErrorCodes::DeadlineNotExpired)
        );
        assert_eq!(
            refused_cancel(deal, &cancel_accounts(who), i64::MIN),
            code(ErrorCodes::DeadlineNotExpired)
        );
        let mut record = Some(deal);
        assert!(cancel(&config(), &mut record, &cancel_accounts(who), 500).is_ok());
    }
}

#[test]
fn cancel_checks_the_accounts() {
    let mut deal = plain_deal();
    let mut accounts = cancel_accounts(CLIENT);
    accounts.deal_state_deal_ta = empty(CUSTODY);
    assert_eq!(refused_cancel(deal, &accounts, 0), access(AccessError::NotInitialized));
    accounts.deal_state_deal_ta = full(CUSTODY, DEAL_MINT, EXECUTOR, 0);
    assert_eq!(refused_cancel(deal, &accounts, 0), code(ErrorCodes::InvalidOwner));
    let mut accounts = cancel_accounts(CLIENT);
    accounts.client_deal_ta = full(CLIENT_DEAL_TA, BOND_MINT, CLIENT, 0);
    assert_eq!(refused_cancel(deal, &accounts, 0), code(ErrorCodes::InvalidMint));
    deal.checker = Some(Checker { checker_fee: 50, checker_key: key(CHECKER) });
    let mut accounts = cancel_accounts(CLIENT);
    accounts.checker = key(PAYER);
    assert_eq!(refused_cancel(deal, &accounts, 0), account(InvalidAccount::Checker));
    deal.client_bond = Some(Bond { mint: key(BOND_MINT), amount: 200 });
    deal.executor_bond = Some(Bond { mint: key(BOND_MINT), amount: 200 });
    let mut accounts = cancel_accounts(CLIENT);
    accounts.client_bond_mint = key(DEAL_MINT);
    assert_eq!(refused_cancel(deal, &accounts, 0), account(InvalidAccount::ClientBondMint));
    let mut accounts = cancel_accounts(CLIENT);
    accounts.deal_state_client_bond_ta = full(CLIENT_BOND_CUSTODY, BOND_MINT, CLIENT, 0);
    assert_eq!(
        refused_cancel(deal, &accounts, 0),
        account(InvalidAccount::DealStateClientBondTokenAccount)
    );
    let mut accounts = cancel_accounts(CLIENT);
    accounts.client_bond_ta = full(CLIENT_BOND_TA, DEAL_MINT, CLIENT, 0);
    assert_eq!(refused_cancel(deal, &accounts, 0), account(InvalidAccount::ClientBondTokenAccount));
    let mut accounts = cancel_accounts(CLIENT);
    accounts.executor_bond_mint = key(DEAL_MINT);
    assert_eq!(refused_cancel(deal, &accounts, 0), account(InvalidAccount::ExecutorBondMint));
    let mut accounts = cancel_accounts(CLIENT);
    accounts.deal_state_executor_bond_ta = empty(EXECUTOR_BOND_CUSTODY);
    assert_eq!(
        refused_cancel(deal, &accounts, 0),
        account(InvalidAccount::DealStateExecutorBondTokenAccount)
    );
    let mut accounts = cancel_accounts(CLIENT);
    accounts.executor_bond_ta = full(EXECUTOR_BOND_TA, BOND_MINT, CLIENT, 0);
    assert_eq!(refused_cancel(deal, &accounts, 0), account(InvalidAccount::ExecutorBondTokenAccount));
}

#[test]
fn cancel_refuses_a_refund_that_no_account_can_hold() {
    let mut deal = plain_deal();
    deal.amount = u64::MAX;
    deal.checker = Some(Checker { checker_fee: 1, checker_key: key(CHECKER) });
    assert_eq!(refused_cancel(deal, &cancel_accounts(CLIENT), 0), code(ErrorCodes::AmountOverflow));
}

// ---- one terminal transition per deal ----

#[test]
fn a_deal_ends_once() {
    let cfg = config();
    let gone = Err(access(AccessError::RecordNotFound));
    let mut record = Some(plain_deal());
    finish(&cfg, &mut record, &finish_accounts(EXECUTOR), 0).unwrap();
    assert_eq!(finish(&cfg, &mut record, &finish_accounts(EXECUTOR), 0), gone);
    assert_eq!(cancel(&cfg, &mut record, &cancel_accounts(CLIENT), 0), gone);
    assert_eq!(record, None);

    let mut record = Some(plain_deal());
    cancel(&cfg, &mut record, &cancel_accounts(CLIENT), 0).unwrap();
    assert_eq!(cancel(&cfg, &mut record, &cancel_accounts(CLIENT), 0), gone);
    assert_eq!(finish(&cfg, &mut record, &finish_accounts(EXECUTOR), 0), gone);
    assert_eq!(record, None);

    let mut record: Option<DealState> = None;
    assert_eq!(finish(&cfg, &mut record, &finish_accounts(EXECUTOR), 0), gone);
    assert_eq!(cancel(&cfg, &mut record, &cancel_accounts(SERVICE), 0), gone);
}

#[test]
fn bonds_come_back_as_they_went_in() {
    let cfg = config();
    let mut a = args(1000);
    a.client_bond = Some(200);
    a.executor_bond = Some(300);
    let mut record: Option<DealState> = None;
    let posted = initialize(&cfg, &mut record, &init_accounts(), &a, 0).unwrap();
    assert_eq!(received_at(&posted, CLIENT_BOND_CUSTODY), 200);
    assert_eq!(received_at(&posted, EXECUTOR_BOND_CUSTODY), 300);
    let mut finished = record;
    let mut cancelled = record;
    let plan = finish(&cfg, &mut finished, &finish_accounts(EXECUTOR), 0).unwrap();
    assert_eq!(received_at(&plan, CLIENT_BOND_TA), 200);
    assert_eq!(received_at(&plan, EXECUTOR_BOND_TA), 300);
    let plan = cancel(&cfg, &mut cancelled, &cancel_accounts(EXECUTOR), 0).unwrap();
    assert_eq!(received_at(&plan, CLIENT_BOND_TA), 200);
    assert_eq!(received_at(&plan, EXECUTOR_BOND_TA), 300);
}

#[test]
fn every_stored_record_is_well_formed() {
    let cfg = config();
    let mut record: Option<DealState> = None;
    let mut a = args(1000);
    a.checker_fee = None;
    a.advance_payment_amount = 999;
    initialize(&cfg, &mut record, &init_accounts(), &a, 0).unwrap();
    assert!(record.unwrap().is_well_formed());
    let r = partially_pay(&mut record, &pay_accounts(), &PartiallyPayArgs { amount: 2 });
    assert!(r.is_err());
    assert!(record.unwrap().is_well_formed());
    partially_pay(&mut record, &pay_accounts(), &PartiallyPayArgs { amount: 1 }).unwrap();
    assert!(record.unwrap().is_well_formed());
    assert_eq!(record.unwrap().paid_amount, 1000);
    update_checker(&cfg, &mut record, &update_accounts(SERVICE), u64::MAX - 1000).unwrap();
    assert!(record.unwrap().is_well_formed());
    let r = update_checker(&cfg, &mut record, &update_accounts(SERVICE), u64::MAX);
    assert_eq!(r, Err(code(ErrorCodes::AmountOverflow)));
    assert!(record.unwrap().is_well_formed());
    let plan = cancel(&cfg, &mut record, &cancel_accounts(CHECKER), 0).unwrap();
    assert_eq!(plan[0], transfer(CUSTODY, CLIENT_DEAL_TA, RECORD, u64::MAX));
    assert_eq!(record, None);
    initialize(&cfg, &mut record, &init_accounts(), &args(5), 0).unwrap();
    assert!(record.unwrap().is_well_formed());
    assert_eq!(record.unwrap().paid_amount, 0);
}
