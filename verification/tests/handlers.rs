use solana_program::program_option::COption;
use solana_program::program_pack::Pack;
use solana_program::pubkey::Pubkey;
use token_sale::error::SaleError;
use token_sale::instruction::TokenSaleInstruction;
use token_sale::ledger::AccountRole;
use token_sale::ledger::LedgerInstruction;
use token_sale::processor::AccountSnapshot;
use token_sale::processor::Host;
use token_sale::processor::LedgerCall;
use token_sale::processor::Processor;
use token_sale::processor::Reclaimed;
use token_sale::processor::RecordWrite;
use token_sale::processor::Settlement;
use token_sale::processor::AUTHORITY_SEED;
use token_sale::state::TokenSaleProgramData;

const PROGRAM: [u8; 32] = [42u8; 32];
const SELLER: [u8; 32] = [1u8; 32];
const ESCROW: [u8; 32] = [2u8; 32];
const RECORD: [u8; 32] = [3u8; 32];
const BUYER: [u8; 32] = [4u8; 32];
const BUYER_TOKENS: [u8; 32] = [5u8; 32];
const SELLER_TOKENS: [u8; 32] = [6u8; 32];
const RENT: [u8; 32] = [8u8; 32];
const SYSTEM: [u8; 32] = [0u8; 32];
const SIGNING_SLOT: [u8; 32] = [9u8; 32];

fn token_program() -> [u8; 32] {
    spl_token::id().to_bytes()
}

fn authority() -> ([u8; 32], u8) {
    let (key, bump) =
        Pubkey::find_program_address(&[&b"token_sale"[..]], &Pubkey::new_from_array(PROGRAM));
    (key.to_bytes(), bump)
}

fn account(key: [u8; 32], is_signer: bool) -> AccountSnapshot {
    AccountSnapshot { key, owner: SYSTEM, is_signer, lamports: 1_000, data: Vec::new() }
}

fn with_data(key: [u8; 32], owner: [u8; 32], data: Vec<u8>) -> AccountSnapshot {
    AccountSnapshot { key, owner, is_signer: false, lamports: 5_000, data }
}

fn running() -> TokenSaleProgramData {
    TokenSaleProgramData {
        is_initialized: true,
        seller_pubkey: SELLER,
        temp_token_account_pubkey: ESCROW,
        per_token_price: 100,
        max_token_price: 500,
        increase_token_price: 50,
        purchased_token_amount: 10,
        phase_start_time: 0,
        phase_delay_time: 60,
    }
}

fn encoded(record: TokenSaleProgramData) -> Vec<u8> {
    let mut bytes = vec![0u8; 113];
    record.pack_into_slice(&mut bytes);
    bytes
}

fn escrow_state(amount: u64) -> Vec<u8> {
    let state = spl_token::state::Account {
        mint: Pubkey::new_from_array([11u8; 32]),
        owner: Pubkey::new_from_array(authority().0),
        amount,
        delegate: COption::None,
        state: spl_token::state::AccountState::Initialized,
        is_native: COption::None,
        delegated_amount: 0,
        close_authority: COption::None,
    };
    let mut bytes = vec![0u8; 165];
    spl_token::state::Account::pack(state, &mut bytes).unwrap();
    bytes
}

fn plain(built: solana_program::instruction::Instruction) -> LedgerInstruction {
    LedgerInstruction {
        program_id: built.program_id.to_bytes(),
        accounts: built
            .accounts
            .iter()
            .map(|meta| AccountRole {
                key: meta.pubkey.to_bytes(),
                is_signer: meta.is_signer,
                is_writable: meta.is_writable,
            })
            .collect(),
        data: built.data,
    }
}

fn role(key: [u8; 32], is_signer: bool, is_writable: bool) -> AccountRole {
    AccountRole { key, is_signer, is_writable }
}

fn host(now: i64) -> Host {
    Host { now, minimum_balance_met: true }
}

fn init_accounts() -> Vec<AccountSnapshot> {
    vec![
        account(SELLER, true),
        with_data(ESCROW, token_program(), escrow_state(1_000)),
        with_data(RECORD, PROGRAM, vec![0u8; 113]),
        account(RENT, false),
        account(token_program(), false),
    ]
}

fn buy_accounts(record: TokenSaleProgramData) -> Vec<AccountSnapshot> {
    vec![
        account(BUYER, true),
        account(SELLER, false),
        with_data(ESCROW, token_program(), escrow_state(1_000)),
        with_data(RECORD, PROGRAM, encoded(record)),
        account(SYSTEM, false),
        account(BUYER_TOKENS, false),
        account(token_program(), false),
        account(SIGNING_SLOT, false),
    ]
}

fn airdrop_accounts(record: TokenSaleProgramData) -> Vec<AccountSnapshot> {
    vec![
        account(SELLER, true),
        account(SELLER, false),
        with_data(ESCROW, token_program(), escrow_state(1_000)),
        with_data(RECORD, PROGRAM, encoded(record)),
        account(BUYER_TOKENS, false),
        account(token_program(), false),
        account(SIGNING_SLOT, false),
    ]
}

fn end_accounts(amount: u64) -> Vec<AccountSnapshot> {
    vec![
        account(SELLER, true),
        account(SELLER_TOKENS, false),
        with_data(ESCROW, token_program(), escrow_state(amount)),
        account(token_program(), false),
        account(SIGNING_SLOT, false),
        with_data(RECORD, PROGRAM, encoded(running())),
    ]
}

fn init(accounts: &[AccountSnapshot], delay: u64, host: &Host) -> Result<Settlement, SaleError> {
    Processor::init_token_sale_program(accounts, &PROGRAM, 100, 500, 50, delay, host)
}

#[test]
fn the_seed_spells_token_sale() {
    assert_eq!(&AUTHORITY_SEED[..], &b"token_sale"[..]);
}

#[test]
fn init_fills_the_record_and_hands_the_escrow_over() {
    let settlement = init(&init_accounts(), 60, &host(777)).unwrap();
    assert_eq!(
        settlement.record,
        RecordWrite::Store {
            account: 2,
            record: TokenSaleProgramData {
                is_initialized: true,
                seller_pubkey: SELLER,
                temp_token_account_pubkey: ESCROW,
                per_token_price: 100,
                max_token_price: 500,
                increase_token_price: 50,
                purchased_token_amount: 0,
                phase_start_time: 777,
                phase_delay_time: 60,
            },
        }
    );
    let mut data = vec![6u8, 2, 1];
    data.extend_from_slice(&authority().0);
    assert_eq!(
        settlement.calls,
        vec![LedgerCall {
            instruction: LedgerInstruction {
                program_id: token_program(),
                accounts: vec![
                    role(ESCROW, false, true),
                    role(SELLER, false, false),
                    role(SELLER, true, false),
                ],
                data,
            },
            accounts: vec![4, 1, 0],
            signer_bump: None,
        }]
    );
}

#[test]
fn init_builds_what_the_token_library_builds() {
    let settlement = init(&init_accounts(), 60, &host(0)).unwrap();
    let seller = Pubkey::new_from_array(SELLER);
    let expected = spl_token::instruction::set_authority(
        &spl_token::id(),
        &Pubkey::new_from_array(ESCROW),
        Some(&Pubkey::new_from_array(authority().0)),
        spl_token::instruction::AuthorityType::AccountOwner,
        &seller,
        &[&seller],
    )
    .unwrap();
    assert_eq!(settlement.calls[0].instruction, plain(expected));
}

#[test]
fn init_refuses_a_phase_length_of_zero() {
    assert_eq!(init(&init_accounts(), 0, &host(0)), Err(SaleError::DecodeError));
}

#[test]
fn init_refuses_a_phase_length_beyond_the_signed_range() {
    assert_eq!(init(&init_accounts(), 1 << 63, &host(0)), Err(SaleError::DecodeError));
    assert_eq!(init(&init_accounts(), u64::MAX, &host(0)), Err(SaleError::DecodeError));
    let settlement = init(&init_accounts(), i64::MAX as u64, &host(0)).unwrap();
    match settlement.record {
        RecordWrite::Store { record, .. } => assert_eq!(record.phase_delay_time, i64::MAX),
        RecordWrite::Close { .. } => panic!("the record must be stored"),
    }
}

#[test]
fn init_refuses_a_short_account_list() {
    let accounts = init_accounts();
    assert_eq!(init(&accounts[..4], 60, &host(0)), Err(SaleError::DataMismatchError));
    assert_eq!(init(&[], 60, &host(0)), Err(SaleError::DataMismatchError));
}

#[test]
fn init_refuses_a_seller_who_did_not_sign() {
    let mut accounts = init_accounts();
    accounts[0].is_signer = false;
    assert_eq!(init(&accounts, 60, &host(0)), Err(SaleError::AuthorizationError));
}

#[test]
fn init_refuses_an_escrow_of_another_owner() {
    let mut accounts = init_accounts();
    accounts[1].owner = SYSTEM;
    assert_eq!(init(&accounts, 60, &host(0)), Err(SaleError::OwnershipError));
    let mut near = token_program();
    near[31] ^= 1;
    accounts[1].owner = near;
    assert_eq!(init(&accounts, 60, &host(0)), Err(SaleError::OwnershipError));
}

#[test]
fn init_refuses_a_record_below_the_minimum_balance() {
    let poor = Host { now: 0, minimum_balance_met: false };
    assert_eq!(init(&init_accounts(), 60, &poor), Err(SaleError::BalanceError));
}

#[test]
fn init_refuses_storage_that_holds_no_record() {
    let mut accounts = init_accounts();
    accounts[2].data = vec![0u8; 112];
    assert_eq!(init(&accounts, 60, &host(0)), Err(SaleError::DecodeError));
    accounts[2].data = vec![0u8; 114];
    assert_eq!(init(&accounts, 60, &host(0)), Err(SaleError::DecodeError));
    accounts[2].data = vec![0u8; 113];
    accounts[2].data[0] = 2;
    assert_eq!(init(&accounts, 60, &host(0)), Err(SaleError::DecodeError));
}

#[test]
fn init_twice_is_a_state_error() {
    let mut accounts = init_accounts();
    let first = init(&accounts, 60, &host(5)).unwrap();
    let stored = match first.record {
        RecordWrite::Store { record, .. } => record,
        RecordWrite::Close { .. } => panic!("the record must be stored"),
    };
    accounts[2].data = encoded(stored);
    let before = accounts[2].data.clone();
    assert_eq!(init(&accounts, 60, &host(99)), Err(SaleError::StateError));
    assert_eq!(accounts[2].data, before);
}

#[test]
fn init_refuses_a_price_above_the_maximum() {
    assert_eq!(
        Processor::init_token_sale_program(&init_accounts(), &PROGRAM, 600, 500, 50, 60, &host(0)),
        Err(SaleError::DecodeError)
    );
    assert_eq!(
        Processor::init_token_sale_program(&init_accounts(), &PROGRAM, 501, 500, 0, 60, &host(0)),
        Err(SaleError::DecodeError)
    );
    assert_eq!(
        Processor::init_token_sale_program(&init_accounts(), &PROGRAM, 1, 0, 50, 60, &host(0)),
        Err(SaleError::DecodeError)
    );
}

#[test]
fn init_accepts_a_price_at_the_maximum() {
    let settlement =
        Processor::init_token_sale_program(&init_accounts(), &PROGRAM, 500, 500, 50, 60, &host(0))
            .unwrap();
    match settlement.record {
        RecordWrite::Store { account, record } => {
            assert_eq!(account, 2);
            assert_eq!(record.per_token_price, 500);
            assert_eq!(record.max_token_price, 500);
            assert!(record.per_token_price <= record.max_token_price);
        }
        RecordWrite::Close { .. } => panic!("the record must be stored"),
    }
}

#[test]
fn every_record_that_init_stores_has_a_price_within_its_maximum() {
    for (price, max) in [(0u64, 0u64), (0, 1), (1, 0), (7, 7), (8, 7), (u64::MAX, u64::MAX), (u64::MAX, 0)] {
        let res =
            Processor::init_token_sale_program(&init_accounts(), &PROGRAM, price, max, 3, 60, &host(0));
        match res {
            Ok(settlement) => {
                assert!(price <= max);
                match settlement.record {
                    RecordWrite::Store { record, .. } => {
                        assert!(record.per_token_price <= record.max_token_price)
                    }
                    RecordWrite::Close { .. } => panic!("the record must be stored"),
                }
            }
            Err(e) => {
                assert!(price > max);
                assert_eq!(e, SaleError::DecodeError);
            }
        }
    }
}

#[test]
fn init_twice_is_a_state_error_whatever_the_terms() {
    let mut accounts = init_accounts();
    accounts[2].data = encoded(running());
    assert_eq!(init(&accounts, 0, &host(0)), Err(SaleError::StateError));
    assert_eq!(init(&accounts, 1 << 63, &host(0)), Err(SaleError::StateError));
    assert_eq!(
        Processor::init_token_sale_program(&accounts, &PROGRAM, 600, 500, 50, 60, &host(0)),
        Err(SaleError::StateError)
    );
    assert_eq!(
        Processor::init_token_sale_program(&accounts, &PROGRAM, 600, 500, 50, 0, &host(0)),
        Err(SaleError::StateError)
    );
}

#[test]
fn init_looks_at_the_accounts_before_the_terms() {
    let poor = Host { now: 0, minimum_balance_met: false };
    assert_eq!(init(&init_accounts(), 0, &poor), Err(SaleError::BalanceError));
    assert_eq!(
        Processor::init_token_sale_program(&init_accounts(), &PROGRAM, 600, 500, 50, 60, &poor),
        Err(SaleError::BalanceError)
    );
    let mut unsigned = init_accounts();
    unsigned[0].is_signer = false;
    assert_eq!(init(&unsigned, 0, &host(0)), Err(SaleError::AuthorizationError));
    let mut foreign = init_accounts();
    foreign[1].owner = SYSTEM;
    assert_eq!(init(&foreign, 0, &host(0)), Err(SaleError::OwnershipError));
    let accounts = init_accounts();
    assert_eq!(init(&accounts[..4], 0, &host(0)), Err(SaleError::DataMismatchError));
    let mut broken = init_accounts();
    broken[2].data = vec![0u8; 112];
    assert_eq!(init(&broken, 0, &host(0)), Err(SaleError::DecodeError));
}

#[test]
fn init_looks_at_the_terms_before_the_token_program() {
    let mut accounts = init_accounts();
    accounts[4].key = SYSTEM;
    assert_eq!(init(&accounts, 0, &host(0)), Err(SaleError::DecodeError));
    assert_eq!(init(&accounts, 60, &host(0)), Err(SaleError::OwnershipError));
}

#[test]
fn terms_are_acceptable_with_a_bounded_price_and_a_positive_phase() {
    assert!(Processor::accepts_terms(100, 500, 60));
    assert!(Processor::accepts_terms(500, 500, 1));
    assert!(Processor::accepts_terms(0, 0, i64::MAX as u64));
    assert!(!Processor::accepts_terms(501, 500, 60));
    assert!(!Processor::accepts_terms(100, 500, 0));
    assert!(!Processor::accepts_terms(100, 500, (i64::MAX as u64) + 1));
    assert!(!Processor::accepts_terms(100, 500, u64::MAX));
}

#[test]
fn each_instruction_has_its_number_of_accounts() {
    let init = TokenSaleInstruction::InitTokenSale {
        per_token_price: 1,
        max_token_price: 2,
        increase_token_price: 3,
        phase_delay_time: 4,
    };
    assert_eq!(Processor::accounts_expected(&init), 5);
    assert_eq!(
        Processor::accounts_expected(&TokenSaleInstruction::BuyToken { number_of_tokens: 1 }),
        8
    );
    assert_eq!(
        Processor::accounts_expected(&TokenSaleInstruction::AirdropToken { number_of_tokens: 1 }),
        7
    );
    assert_eq!(Processor::accounts_expected(&TokenSaleInstruction::EndTokenSale {}), 6);
    assert_eq!(init_accounts().len(), 5);
    assert_eq!(buy_accounts(running()).len(), 8);
    assert_eq!(airdrop_accounts(running()).len(), 7);
    assert_eq!(end_accounts(1).len(), 6);
}

#[test]
fn buy_with_another_seller_on_a_sale_not_set_up_is_a_data_mismatch() {
    let fresh = TokenSaleProgramData { is_initialized: false, ..running() };
    let mut seller = buy_accounts(fresh);
    seller[1].key = BUYER;
    assert_eq!(
        Processor::buy_token(&seller, &PROGRAM, 1, &host(0)),
        Err(SaleError::DataMismatchError)
    );
    let mut escrow = buy_accounts(fresh);
    escrow[2].key = BUYER;
    assert_eq!(
        Processor::buy_token(&escrow, &PROGRAM, 1, &host(0)),
        Err(SaleError::DataMismatchError)
    );
    let mut both = buy_accounts(fresh);
    both[1].key = BUYER;
    both[2].key = BUYER_TOKENS;
    assert_eq!(
        Processor::buy_token(&both, &PROGRAM, 1, &host(0)),
        Err(SaleError::DataMismatchError)
    );
    let mut blank = buy_accounts(running());
    blank[3].data = vec![0u8; 113];
    assert_eq!(
        Processor::buy_token(&blank, &PROGRAM, 1, &host(0)),
        Err(SaleError::DataMismatchError)
    );
}

#[test]
fn airdrop_with_another_seller_on_a_sale_not_set_up_is_a_data_mismatch() {
    let fresh = TokenSaleProgramData { is_initialized: false, ..running() };
    let mut seller = airdrop_accounts(fresh);
    seller[1].key = BUYER;
    assert_eq!(
        Processor::airdrop_token(&seller, &PROGRAM, 1),
        Err(SaleError::DataMismatchError)
    );
    let mut escrow = airdrop_accounts(fresh);
    escrow[2].key = BUYER;
    assert_eq!(
        Processor::airdrop_token(&escrow, &PROGRAM, 1),
        Err(SaleError::DataMismatchError)
    );
    let mut unsigned = airdrop_accounts(fresh);
    unsigned[0].is_signer = false;
    unsigned[1].key = BUYER;
    assert_eq!(
        Processor::airdrop_token(&unsigned, &PROGRAM, 1),
        Err(SaleError::AuthorizationError)
    );
}

#[test]
fn init_refuses_another_token_program() {
    let mut accounts = init_accounts();
    accounts[4].key = SYSTEM;
    assert_eq!(init(&accounts, 60, &host(0)), Err(SaleError::OwnershipError));
}

#[test]
fn buy_pays_the_seller_and_delivers_the_tokens() {
    let settlement =
        Processor::buy_token(&buy_accounts(running()), &PROGRAM, 3, &host(130)).unwrap();
    assert_eq!(
        settlement.record,
        RecordWrite::Store {
            account: 3,
            record: TokenSaleProgramData {
                per_token_price: 200,
                phase_start_time: 120,
                purchased_token_amount: 13,
                ..running()
            },
        }
    );
    let (pda, bump) = authority();
    let mut pay = vec![2u8, 0, 0, 0];
    pay.extend_from_slice(&600u64.to_le_bytes());
    let mut deliver = vec![3u8];
    deliver.extend_from_slice(&3u64.to_le_bytes());
    assert_eq!(
        settlement.calls,
        vec![
            LedgerCall {
                instruction: LedgerInstruction {
                    program_id: SYSTEM,
                    accounts: vec![role(BUYER, true, true), role(SELLER, false, true)],
                    data: pay,
                },
                accounts: vec![0, 1, 4],
                signer_bump: None,
            },
            LedgerCall {
                instruction: LedgerInstruction {
                    program_id: token_program(),
                    accounts: vec![
                        role(ESCROW, false, true),
                        role(BUYER_TOKENS, false, true),
                        role(pda, false, false),
                        role(pda, true, false),
                    ],
                    data: deliver,
                },
                accounts: vec![2, 5, 7, 6],
                signer_bump: Some(bump),
            },
        ]
    );
}

#[test]
fn buy_builds_what_the_ledger_libraries_build() {
    let settlement =
        Processor::buy_token(&buy_accounts(running()), &PROGRAM, 7, &host(0)).unwrap();
    let payment = solana_program::system_instruction::transfer(
        &Pubkey::new_from_array(BUYER),
        &Pubkey::new_from_array(SELLER),
        700,
    );
    assert_eq!(settlement.calls[0].instruction, plain(payment));
    let pda = Pubkey::new_from_array(authority().0);
    let delivery = spl_token::instruction::transfer(
        &spl_token::id(),
        &Pubkey::new_from_array(ESCROW),
        &Pubkey::new_from_array(BUYER_TOKENS),
        &pda,
        &[&pda],
        7,
    )
    .unwrap();
    assert_eq!(settlement.calls[1].instruction, plain(delivery));
}

#[test]
fn buy_at_the_start_charges_100_and_at_130_charges_200() {
    let first = Processor::buy_token(&buy_accounts(running()), &PROGRAM, 1, &host(0)).unwrap();
    let mut pay = vec![2u8, 0, 0, 0];
    pay.extend_from_slice(&100u64.to_le_bytes());
    assert_eq!(first.calls[0].instruction.data, pay);
    let stored = match first.record {
        RecordWrite::Store { record, .. } => record,
        RecordWrite::Close { .. } => panic!("the record must be stored"),
    };
    assert_eq!(stored.per_token_price, 100);
    assert_eq!(stored.phase_start_time, 0);
    let second = Processor::buy_token(&buy_accounts(stored), &PROGRAM, 1, &host(130)).unwrap();
    let mut pay = vec![2u8, 0, 0, 0];
    pay.extend_from_slice(&200u64.to_le_bytes());
    assert_eq!(second.calls[0].instruction.data, pay);
    let stored = match second.record {
        RecordWrite::Store { record, .. } => record,
        RecordWrite::Close { .. } => panic!("the record must be stored"),
    };
    assert_eq!(stored.per_token_price, 200);
    assert_eq!(stored.phase_start_time, 120);
    assert_eq!(stored.purchased_token_amount, 12);
}

#[test]
fn buy_refuses_a_short_account_list() {
    let accounts = buy_accounts(running());
    assert_eq!(
        Processor::buy_token(&accounts[..7], &PROGRAM, 1, &host(0)),
        Err(SaleError::DataMismatchError)
    );
    assert_eq!(
        Processor::buy_token(&[], &PROGRAM, 1, &host(0)),
        Err(SaleError::DataMismatchError)
    );
}

#[test]
fn buy_refuses_a_buyer_who_did_not_sign() {
    let mut accounts = buy_accounts(running());
    accounts[0].is_signer = false;
    assert_eq!(
        Processor::buy_token(&accounts, &PROGRAM, 1, &host(0)),
        Err(SaleError::AuthorizationError)
    );
}

#[test]
fn buy_refuses_storage_that_holds_no_record() {
    let mut accounts = buy_accounts(running());
    accounts[3].data.push(0);
    assert_eq!(
        Processor::buy_token(&accounts, &PROGRAM, 1, &host(0)),
        Err(SaleError::DecodeError)
    );
    accounts[3].data.pop();
    accounts[3].data[0] = 7;
    assert_eq!(
        Processor::buy_token(&accounts, &PROGRAM, 1, &host(0)),
        Err(SaleError::DecodeError)
    );
}

#[test]
fn buy_from_a_sale_not_set_up_is_a_state_error() {
    let accounts = buy_accounts(TokenSaleProgramData { is_initialized: false, ..running() });
    assert_eq!(
        Processor::buy_token(&accounts, &PROGRAM, 1, &host(0)),
        Err(SaleError::StateError)
    );
}

#[test]
fn buy_with_another_seller_is_a_data_mismatch() {
    let mut accounts = buy_accounts(running());
    accounts[1].key = BUYER;
    let before = accounts[3].data.clone();
    assert_eq!(
        Processor::buy_token(&accounts, &PROGRAM, 1, &host(0)),
        Err(SaleError::DataMismatchError)
    );
    assert_eq!(accounts[3].data, before);
}

#[test]
fn buy_with_another_escrow_is_a_data_mismatch() {
    let mut accounts = buy_accounts(running());
    accounts[2].key = BUYER_TOKENS;
    let before = accounts[3].data.clone();
    assert_eq!(
        Processor::buy_token(&accounts, &PROGRAM, 1, &host(0)),
        Err(SaleError::DataMismatchError)
    );
    assert_eq!(accounts[3].data, before);
}

#[test]
fn buy_refuses_a_cost_beyond_64_bits() {
    let accounts = buy_accounts(TokenSaleProgramData {
        per_token_price: 1 << 40,
        max_token_price: 1 << 40,
        ..running()
    });
    assert_eq!(
        Processor::buy_token(&accounts, &PROGRAM, 1 << 24, &host(0)),
        Err(SaleError::ArithmeticError)
    );
}

#[test]
fn buy_refuses_a_count_beyond_64_bits() {
    let accounts =
        buy_accounts(TokenSaleProgramData { purchased_token_amount: u64::MAX, ..running() });
    assert_eq!(
        Processor::buy_token(&accounts, &PROGRAM, 1, &host(0)),
        Err(SaleError::ArithmeticError)
    );
}

#[test]
fn buy_refuses_a_record_without_a_phase_length() {
    let accounts = buy_accounts(TokenSaleProgramData { phase_delay_time: 0, ..running() });
    assert_eq!(
        Processor::buy_token(&accounts, &PROGRAM, 1, &host(10)),
        Err(SaleError::ArithmeticError)
    );
}

#[test]
fn buy_refuses_another_token_program() {
    let mut accounts = buy_accounts(running());
    accounts[6].key = SYSTEM;
    assert_eq!(
        Processor::buy_token(&accounts, &PROGRAM, 1, &host(0)),
        Err(SaleError::OwnershipError)
    );
}

#[test]
fn airdrop_delivers_the_tokens_without_payment() {
    let settlement =
        Processor::airdrop_token(&airdrop_accounts(running()), &PROGRAM, 25).unwrap();
    assert_eq!(
        settlement.record,
        RecordWrite::Store {
            account: 3,
            record: TokenSaleProgramData { purchased_token_amount: 35, ..running() },
        }
    );
    let (pda, bump) = authority();
    let mut deliver = vec![3u8];
    deliver.extend_from_slice(&25u64.to_le_bytes());
    assert_eq!(
        settlement.calls,
        vec![LedgerCall {
            instruction: LedgerInstruction {
                program_id: token_program(),
                accounts: vec![
                    role(ESCROW, false, true),
                    role(BUYER_TOKENS, false, true),
                    role(pda, false, false),
                    role(pda, true, false),
                ],
                data: deliver,
            },
            accounts: vec![2, 4, 6, 5],
            signer_bump: Some(bump),
        }]
    );
}

#[test]
fn airdrop_refuses_what_buy_refuses() {
    let accounts = airdrop_accounts(running());
    assert_eq!(
        Processor::airdrop_token(&accounts[..6], &PROGRAM, 1),
        Err(SaleError::DataMismatchError)
    );
    let mut unsigned = airdrop_accounts(running());
    unsigned[0].is_signer = false;
    assert_eq!(
        Processor::airdrop_token(&unsigned, &PROGRAM, 1),
        Err(SaleError::AuthorizationError)
    );
    let mut broken = airdrop_accounts(running());
    broken[3].data = vec![1u8; 10];
    assert_eq!(Processor::airdrop_token(&broken, &PROGRAM, 1), Err(SaleError::DecodeError));
    let fresh = airdrop_accounts(TokenSaleProgramData { is_initialized: false, ..running() });
    assert_eq!(Processor::airdrop_token(&fresh, &PROGRAM, 1), Err(SaleError::StateError));
    let mut stranger = airdrop_accounts(running());
    stranger[1].key = BUYER;
    assert_eq!(
        Processor::airdrop_token(&stranger, &PROGRAM, 1),
        Err(SaleError::DataMismatchError)
    );
    let mut elsewhere = airdrop_accounts(running());
    elsewhere[2].key = BUYER;
    assert_eq!(
        Processor::airdrop_token(&elsewhere, &PROGRAM, 1),
        Err(SaleError::DataMismatchError)
    );
    let full =
        airdrop_accounts(TokenSaleProgramData { purchased_token_amount: u64::MAX, ..running() });
    assert_eq!(Processor::airdrop_token(&full, &PROGRAM, 1), Err(SaleError::ArithmeticError));
    let mut other = airdrop_accounts(running());
    other[5].key = SYSTEM;
    assert_eq!(Processor::airdrop_token(&other, &PROGRAM, 1), Err(SaleError::OwnershipError));
}

#[test]
fn airdrop_does_not_move_the_phase() {
    let settlement = Processor::airdrop_token(&airdrop_accounts(running()), &PROGRAM, 0).unwrap();
    assert_eq!(settlement.record, RecordWrite::Store { account: 3, record: running() });
}

#[test]
fn end_returns_the_whole_balance_and_closes() {
    let settlement = Processor::end_token_sale(&end_accounts(123_456_789), &PROGRAM).unwrap();
    assert_eq!(settlement.record, RecordWrite::Close { account: 5, heir: 0 });
    let (pda, bump) = authority();
    let mut give_back = vec![3u8];
    give_back.extend_from_slice(&123_456_789u64.to_le_bytes());
    assert_eq!(
        settlement.calls,
        vec![
            LedgerCall {
                instruction: LedgerInstruction {
                    program_id: token_program(),
                    accounts: vec![
                        role(ESCROW, false, true),
                        role(SELLER_TOKENS, false, true),
                        role(pda, false, false),
                        role(pda, true, false),
                    ],
                    data: give_back,
                },
                accounts: vec![2, 1, 4, 3],
                signer_bump: Some(bump),
            },
            LedgerCall {
                instruction: LedgerInstruction {
                    program_id: token_program(),
                    accounts: vec![
                        role(ESCROW, false, true),
                        role(SELLER, false, true),
                        role(pda, false, false),
                        role(pda, true, false),
                    ],
                    data: vec![9u8],
                },
                accounts: vec![3, 2, 0, 4],
                signer_bump: Some(bump),
            },
        ]
    );
}

#[test]
fn end_builds_what_the_token_library_builds() {
    let settlement = Processor::end_token_sale(&end_accounts(u64::MAX), &PROGRAM).unwrap();
    let pda = Pubkey::new_from_array(authority().0);
    let give_back = spl_token::instruction::transfer(
        &spl_token::id(),
        &Pubkey::new_from_array(ESCROW),
        &Pubkey::new_from_array(SELLER_TOKENS),
        &pda,
        &[&pda],
        u64::MAX,
    )
    .unwrap();
    assert_eq!(settlement.calls[0].instruction, plain(give_back));
    let close = spl_token::instruction::close_account(
        &spl_token::id(),
        &Pubkey::new_from_array(ESCROW),
        &Pubkey::new_from_array(SELLER),
        &pda,
        &[&pda],
    )
    .unwrap();
    assert_eq!(settlement.calls[1].instruction, plain(close));
}

#[test]
fn end_of_an_empty_escrow_moves_nothing_and_closes() {
    let settlement = Processor::end_token_sale(&end_accounts(0), &PROGRAM).unwrap();
    assert_eq!(settlement.calls[0].instruction.data, vec![3u8, 0, 0, 0, 0, 0, 0, 0, 0]);
    assert_eq!(settlement.calls.len(), 2);
    assert_eq!(settlement.record, RecordWrite::Close { account: 5, heir: 0 });
}

#[test]
fn end_does_not_ask_whether_the_sale_was_set_up() {
    let mut accounts = end_accounts(5);
    accounts[0].is_signer = false;
    accounts[5].data = vec![0u8; 113];
    let settlement = Processor::end_token_sale(&accounts, &PROGRAM).unwrap();
    assert_eq!(settlement.record, RecordWrite::Close { account: 5, heir: 0 });
}

#[test]
fn end_refuses_a_short_account_list() {
    let accounts = end_accounts(5);
    assert_eq!(
        Processor::end_token_sale(&accounts[..5], &PROGRAM),
        Err(SaleError::DataMismatchError)
    );
}

#[test]
fn end_refuses_an_escrow_that_holds_no_token_account() {
    let mut accounts = end_accounts(5);
    accounts[2].data.pop();
    assert_eq!(Processor::end_token_sale(&accounts, &PROGRAM), Err(SaleError::DecodeError));
    accounts[2].data = vec![0u8; 165];
    assert_eq!(Processor::end_token_sale(&accounts, &PROGRAM), Err(SaleError::DecodeError));
    accounts[2].data = escrow_state(5);
    accounts[2].data.push(0);
    assert_eq!(Processor::end_token_sale(&accounts, &PROGRAM), Err(SaleError::DecodeError));
}

#[test]
fn end_reads_the_escrow_as_the_token_library_does() {
    let good = escrow_state(0x0102_0304_0506_0708);
    assert_eq!(&good[64..72], &[8u8, 7, 6, 5, 4, 3, 2, 1]);
    for at in [72usize, 73, 74, 75, 108, 109, 110, 111, 112, 129, 130, 131, 132] {
        for value in [0u8, 1, 2, 3, 255] {
            let mut data = good.clone();
            data[at] = value;
            let theirs = spl_token::state::Account::unpack(&data).ok().map(|state| state.amount);
            let mut accounts = end_accounts(0);
            accounts[2].data = data;
            let ours = match Processor::end_token_sale(&accounts, &PROGRAM) {
                Ok(settlement) => {
                    let mut amount = [0u8; 8];
                    amount.copy_from_slice(&settlement.calls[0].instruction.data[1..9]);
                    Some(u64::from_le_bytes(amount))
                }
                Err(e) => {
                    assert_eq!(e, SaleError::DecodeError);
                    None
                }
            };
            assert_eq!(ours, theirs);
            let expected = if at == 108 {
                value == 1 || value == 2
            } else if at == 72 || at == 109 || at == 129 {
                value <= 1
            } else {
                value == 0
            };
            assert_eq!(ours.is_some(), expected);
            if expected {
                assert_eq!(ours, Some(0x0102_0304_0506_0708));
            }
        }
    }
}

#[test]
fn end_refuses_another_token_program() {
    let mut accounts = end_accounts(5);
    accounts[3].key = PROGRAM;
    assert_eq!(Processor::end_token_sale(&accounts, &PROGRAM), Err(SaleError::OwnershipError));
}

#[test]
fn the_authority_depends_on_the_program() {
    let here = Processor::end_token_sale(&end_accounts(5), &PROGRAM).unwrap();
    let there = Processor::end_token_sale(&end_accounts(5), &[43u8; 32]).unwrap();
    let (key, bump) =
        Pubkey::find_program_address(&[&b"token_sale"[..]], &Pubkey::new_from_array([43u8; 32]));
    assert_eq!(there.calls[0].instruction.accounts[2].key, key.to_bytes());
    assert_eq!(there.calls[0].signer_bump, Some(bump));
    assert_ne!(here.calls[0].instruction.accounts[2].key, there.calls[0].instruction.accounts[2].key);
    assert_ne!(here.calls[0].instruction.accounts[2].key, PROGRAM);
}

#[test]
fn the_record_balance_goes_to_the_seller() {
    assert_eq!(
        Processor::reclaim_record_balance(1_000, 2_500),
        Ok(Reclaimed { heir_lamports: 3_500, account_lamports: 0, account_data: Vec::new() })
    );
    assert_eq!(
        Processor::reclaim_record_balance(0, 0),
        Ok(Reclaimed { heir_lamports: 0, account_lamports: 0, account_data: Vec::new() })
    );
    assert_eq!(
        Processor::reclaim_record_balance(u64::MAX - 1, 1),
        Ok(Reclaimed { heir_lamports: u64::MAX, account_lamports: 0, account_data: Vec::new() })
    );
}

#[test]
fn a_balance_that_does_not_fit_is_refused() {
    assert_eq!(Processor::reclaim_record_balance(u64::MAX, 1), Err(SaleError::BalanceError));
    assert_eq!(Processor::reclaim_record_balance(1, u64::MAX), Err(SaleError::BalanceError));
}

#[test]
fn process_routes_by_the_tag() {
    let mut data = vec![0u8];
    for value in [100u64, 500, 50, 60] {
        data.extend_from_slice(&value.to_le_bytes());
    }
    assert_eq!(
        Processor::process(&PROGRAM, &init_accounts(), &data, &host(9)),
        Processor::init_token_sale_program(&init_accounts(), &PROGRAM, 100, 500, 50, 60, &host(9))
    );
    assert!(Processor::process(&PROGRAM, &init_accounts(), &data, &host(9)).is_ok());
    let mut buy = vec![1u8];
    buy.extend_from_slice(&4u64.to_le_bytes());
    assert_eq!(
        Processor::process(&PROGRAM, &buy_accounts(running()), &buy, &host(61)),
        Processor::buy_token(&buy_accounts(running()), &PROGRAM, 4, &host(61))
    );
    assert!(Processor::process(&PROGRAM, &buy_accounts(running()), &buy, &host(61)).is_ok());
    let mut airdrop = vec![2u8];
    airdrop.extend_from_slice(&4u64.to_le_bytes());
    assert_eq!(
        Processor::process(&PROGRAM, &airdrop_accounts(running()), &airdrop, &host(61)),
        Processor::airdrop_token(&airdrop_accounts(running()), &PROGRAM, 4)
    );
    assert!(Processor::process(&PROGRAM, &airdrop_accounts(running()), &airdrop, &host(0)).is_ok());
    assert_eq!(
        Processor::process(&PROGRAM, &end_accounts(8), &[3u8], &host(0)),
        Processor::end_token_sale(&end_accounts(8), &PROGRAM)
    );
    assert!(Processor::process(&PROGRAM, &end_accounts(8), &[3u8], &host(0)).is_ok());
}

#[test]
fn process_refuses_what_it_cannot_decode() {
    assert_eq!(
        Processor::process(&PROGRAM, &end_accounts(8), &[], &host(0)),
        Err(SaleError::DecodeError)
    );
    assert_eq!(
        Processor::process(&PROGRAM, &end_accounts(8), &[9u8], &host(0)),
        Err(SaleError::DecodeError)
    );
    assert_eq!(
        Processor::process(&PROGRAM, &end_accounts(8), &[3u8, 3], &host(0)),
        Err(SaleError::DecodeError)
    );
}
