//! The dispatcher and the four handlers of the sale. A handler reads a
//! snapshot of the accounts it was given, in their fixed order, and decides:
//! it refuses the instruction, or it settles on the ledger calls to make
//! and on what becomes of the sale record.
use vstd::prelude::*;
use crate::error::SaleError;
use crate::instruction::parsed;
use crate::instruction::TokenSaleInstruction;
use crate::ledger::close_account_request;
use crate::ledger::close_token_account;
use crate::ledger::derived_address;
use crate::ledger::find_program_address;
use crate::ledger::native_transfer;
use crate::ledger::native_transfer_request;
use crate::ledger::set_account_owner;
use crate::ledger::set_owner_request;
use crate::ledger::token_balance;
use crate::ledger::token_program_id;
use crate::ledger::token_program_key;
use crate::ledger::token_transfer;
use crate::ledger::token_transfer_request;
use crate::ledger::unpack_token_balance;
use crate::ledger::LedgerInstruction;
use crate::ledger::LedgerRequest;
use crate::sale::all_accepted;
use crate::sale::grantable;
use crate::sale::granted;
use crate::sale::lemma_run_counts_every_token;
use crate::sale::purchasable;
use crate::sale::purchase_cost;
use crate::sale::purchased;
use crate::sale::record_grant;
use crate::sale::record_purchase;
use crate::sale::replayed;
use crate::sale::tokens_requested;
use crate::sale::Disbursement;
use crate::state::decoding;
use crate::state::SaleRecord;
use crate::state::TokenSaleProgramData;
use crate::wire::same_key;

verus! {

/// The seed from which the sale derives the authority over its escrow.
pub const AUTHORITY_SEED: [u8; 10] = [116, 111, 107, 101, 110, 95, 115, 97, 108, 101];

/// The seed as a sequence of bytes: the letters of "token_sale".
pub open spec fn authority_seed() -> Seq<u8> {
    seq![116u8, 111u8, 107u8, 101u8, 110u8, 95u8, 115u8, 97u8, 108u8, 101u8]
}

/// An account as the host presents it to an instruction.
#[derive(Clone, Debug, PartialEq, Eq)]
pub struct AccountSnapshot {
    /// The account's identifier.
    pub key: [u8; 32],
    /// The program that owns the account.
    pub owner: [u8; 32],
    /// Whether the account signed the transaction.
    pub is_signer: bool,
    /// The account's balance in native currency.
    pub lamports: u64,
    /// The account's storage.
    pub data: Vec<u8>,
}

/// What the host knows and the library cannot compute.
#[derive(Clone, Copy, Debug, PartialEq, Eq)]
pub struct Host {
    /// The time by the host's clock.
    pub now: i64,
    /// Whether the sale-record account holds the minimum balance that its
    /// storage calls for.
    pub minimum_balance_met: bool,
}

/// One call to the ledger that a handler settled on.
#[derive(Clone, Debug, PartialEq, Eq)]
pub struct LedgerCall {
    /// The request to send.
    pub instruction: LedgerInstruction,
    /// The accounts to hand over with it, by their place in the
    /// instruction's account list.
    pub accounts: Vec<usize>,
    /// `Some(bump)` where the sale's derived authority signs the call, with
    /// the bump of its derivation; `None` where the transaction's own
    /// signers do.
    pub signer_bump: Option<u8>,
}

/// A ledger call as a mathematical value.
pub struct Call {
    pub request: LedgerRequest,
    pub accounts: Seq<usize>,
    pub signer_bump: Option<u8>,
}

impl View for LedgerCall {
    type V = Call;

    open spec fn view(&self) -> Call {
        Call {
            request: self.instruction@,
            accounts: self.accounts@,
            signer_bump: self.signer_bump,
        }
    }
}

/// What becomes of the sale record once the ledger calls went through.
#[derive(Clone, Copy, Debug, PartialEq, Eq)]
pub enum RecordWrite {
    /// The record is written over the storage of the account at place
    /// `account` of the instruction's account list.
    Store { account: usize, record: TokenSaleProgramData },
    /// The account at place `account` is given up: its balance goes to the
    /// account at place `heir` and its storage is cleared.
    Close { account: usize, heir: usize },
}

/// The fate of the sale record as a mathematical value.
pub enum RecordChange {
    Store { account: usize, record: SaleRecord },
    Close { account: usize, heir: usize },
}

impl View for RecordWrite {
    type V = RecordChange;

    open spec fn view(&self) -> RecordChange {
        match self {
            RecordWrite::Store { account, record } => RecordChange::Store {
                account: *account,
                record: record@,
            },
            RecordWrite::Close { account, heir } => RecordChange::Close {
                account: *account,
                heir: *heir,
            },
        }
    }
}

/// What an accepted instruction comes to: the ledger calls to make, in
/// order, and the write to the sale record that is due when all of them
/// succeeded. If one fails, nothing is written.
#[derive(Clone, Debug, PartialEq, Eq)]
pub struct Settlement {
    pub calls: Vec<LedgerCall>,
    pub record: RecordWrite,
}

/// The balances and the storage that are left when an account has been
/// given up in favour of its heir.
#[derive(Clone, Debug, PartialEq, Eq)]
pub struct Reclaimed {
    /// The heir's balance.
    pub heir_lamports: u64,
    /// The balance of the account given up.
    pub account_lamports: u64,
    /// The storage of the account given up.
    pub account_data: Vec<u8>,
}

/// A settlement as a mathematical value.
pub struct Outcome {
    pub calls: Seq<Call>,
    pub record: RecordChange,
}

impl View for Settlement {
    type V = Outcome;

    open spec fn view(&self) -> Outcome {
        Outcome { calls: self.calls@.map_values(|call: LedgerCall| call@), record: self.record@ }
    }
}

/// The record that an account's storage holds: the storage must be exactly
/// 113 bytes with a flag of 0 or 1.
pub open spec fn stored_record(account: AccountSnapshot) -> Option<SaleRecord> {
    if account.data@.len() == 113 && account.data@[0] <= 1 {
        Some(decoding(account.data@))
    } else {
        None
    }
}

/// The authority over the escrow that the program `program_id` derives.
pub open spec fn escrow_authority(program_id: Seq<u8>) -> Option<(Seq<u8>, u8)> {
    derived_address(authority_seed(), program_id)
}

/// Whether a sale can be set up on these terms: the price does not begin
/// above its maximum, and a phase has a positive length that fits the
/// record's signed field.
pub open spec fn terms_acceptable(
    per_token_price: u64,
    max_token_price: u64,
    phase_delay_time: u64,
) -> bool {
    per_token_price <= max_token_price && 0 < phase_delay_time <= i64::MAX
}

/// How many accounts an instruction is handed.
pub open spec fn accounts_needed(instruction: TokenSaleInstruction) -> int {
    match instruction {
        TokenSaleInstruction::InitTokenSale { .. } => 5,
        TokenSaleInstruction::BuyToken { .. } => 8,
        TokenSaleInstruction::AirdropToken { .. } => 7,
        TokenSaleInstruction::EndTokenSale {  } => 6,
    }
}

/// What setting up a sale comes to. The accounts are, in order: the seller,
/// the escrow, the sale record, the host's rent account and the token
/// program. The accounts are looked at first, then the record, then the
/// terms of the sale.
pub open spec fn init_outcome(
    accounts: Seq<AccountSnapshot>,
    program_id: Seq<u8>,
    per_token_price: u64,
    max_token_price: u64,
    increase_token_price: u64,
    phase_delay_time: u64,
    host: Host,
) -> Result<Outcome, SaleError> {
    if accounts.len() < 5 {
        Err(SaleError::DataMismatchError)
    } else if !accounts[0].is_signer {
        Err(SaleError::AuthorizationError)
    } else if accounts[1].owner@ != token_program_key() {
        Err(SaleError::OwnershipError)
    } else if !host.minimum_balance_met {
        Err(SaleError::BalanceError)
    } else if stored_record(accounts[2]) is None {
        Err(SaleError::DecodeError)
    } else if stored_record(accounts[2])->Some_0.is_initialized {
        Err(SaleError::StateError)
    } else if !terms_acceptable(per_token_price, max_token_price, phase_delay_time) {
        Err(SaleError::DecodeError)
    } else if escrow_authority(program_id) is None {
        Err(SaleError::AuthorizationError)
    } else if accounts[4].key@ != token_program_key() {
        Err(SaleError::OwnershipError)
    } else {
        Ok(
            Outcome {
                calls: seq![
                    Call {
                        request: set_owner_request(
                            accounts[4].key@,
                            accounts[1].key@,
                            escrow_authority(program_id)->Some_0.0,
                            accounts[0].key@,
                        ),
                        accounts: seq![4usize, 1usize, 0usize],
                        signer_bump: None,
                    },
                ],
                record: RecordChange::Store {
                    account: 2,
                    record: SaleRecord {
                        is_initialized: true,
                        seller_pubkey: accounts[0].key@,
                        temp_token_account_pubkey: accounts[1].key@,
                        per_token_price,
                        max_token_price,
                        increase_token_price,
                        purchased_token_amount: 0,
                        phase_start_time: host.now,
                        phase_delay_time: phase_delay_time as i64,
                    },
                },
            },
        )
    }
}

/// The sale record that an instruction to buy or to give away finds, or the
/// reason for which it is turned down before the record is touched. The
/// caller of the instruction is the first account, then come the seller, the
/// escrow and the sale record; `expected` is the length of the whole list.
/// Seller and escrow are compared with the record before the record is
/// asked whether its sale was set up.
pub open spec fn running_sale(accounts: Seq<AccountSnapshot>, expected: int) -> Result<
    SaleRecord,
    SaleError,
> {
    if accounts.len() < expected || accounts.len() < 4 {
        Err(SaleError::DataMismatchError)
    } else if !accounts[0].is_signer {
        Err(SaleError::AuthorizationError)
    } else if stored_record(accounts[3]) is None {
        Err(SaleError::DecodeError)
    } else if accounts[1].key@ != stored_record(accounts[3])->Some_0.seller_pubkey
        || accounts[2].key@ != stored_record(accounts[3])->Some_0.temp_token_account_pubkey {
        Err(SaleError::DataMismatchError)
    } else if !stored_record(accounts[3])->Some_0.is_initialized {
        Err(SaleError::StateError)
    } else {
        Ok(stored_record(accounts[3])->Some_0)
    }
}

/// What a purchase comes to. The accounts are, in order: the buyer, the
/// seller, the escrow, the sale record, the system program, the buyer's
/// token account, the token program and the escrow authority.
pub open spec fn buy_outcome(
    accounts: Seq<AccountSnapshot>,
    program_id: Seq<u8>,
    number_of_tokens: u64,
    host: Host,
) -> Result<Outcome, SaleError> {
    match running_sale(accounts, 8) {
        Err(e) => Err(e),
        Ok(r) => if !purchasable(r, host.now, number_of_tokens) {
            Err(SaleError::ArithmeticError)
        } else if escrow_authority(program_id) is None {
            Err(SaleError::AuthorizationError)
        } else if accounts[6].key@ != token_program_key() {
            Err(SaleError::OwnershipError)
        } else {
            Ok(
                Outcome {
                    calls: seq![
                        Call {
                            request: native_transfer_request(
                                accounts[0].key@,
                                accounts[1].key@,
                                purchase_cost(r, host.now, number_of_tokens) as u64,
                            ),
                            accounts: seq![0usize, 1usize, 4usize],
                            signer_bump: None,
                        },
                        Call {
                            request: token_transfer_request(
                                accounts[6].key@,
                                accounts[2].key@,
                                accounts[5].key@,
                                escrow_authority(program_id)->Some_0.0,
                                number_of_tokens,
                            ),
                            accounts: seq![2usize, 5usize, 7usize, 6usize],
                            signer_bump: Some(escrow_authority(program_id)->Some_0.1),
                        },
                    ],
                    record: RecordChange::Store {
                        account: 3,
                        record: purchased(r, host.now, number_of_tokens),
                    },
                },
            )
        },
    }
}

/// What a free allocation comes to. The accounts are, in order: the caller,
/// the seller, the escrow, the sale record, the token account that receives,
/// the token program and the escrow authority.
pub open spec fn airdrop_outcome(
    accounts: Seq<AccountSnapshot>,
    program_id: Seq<u8>,
    number_of_tokens: u64,
) -> Result<Outcome, SaleError> {
    match running_sale(accounts, 7) {
        Err(e) => Err(e),
        Ok(r) => if !grantable(r, number_of_tokens) {
            Err(SaleError::ArithmeticError)
        } else if escrow_authority(program_id) is None {
            Err(SaleError::AuthorizationError)
        } else if accounts[5].key@ != token_program_key() {
            Err(SaleError::OwnershipError)
        } else {
            Ok(
                Outcome {
                    calls: seq![
                        Call {
                            request: token_transfer_request(
                                accounts[5].key@,
                                accounts[2].key@,
                                accounts[4].key@,
                                escrow_authority(program_id)->Some_0.0,
                                number_of_tokens,
                            ),
                            accounts: seq![2usize, 4usize, 6usize, 5usize],
                            signer_bump: Some(escrow_authority(program_id)->Some_0.1),
                        },
                    ],
                    record: RecordChange::Store { account: 3, record: granted(r, number_of_tokens) },
                },
            )
        },
    }
}

/// What closing the sale comes to. The accounts are, in order: the seller,
/// the seller's token account, the escrow, the token program, the escrow
/// authority and the sale record.
pub open spec fn end_outcome(accounts: Seq<AccountSnapshot>, program_id: Seq<u8>) -> Result<
    Outcome,
    SaleError,
> {
    if accounts.len() < 6 {
        Err(SaleError::DataMismatchError)
    } else if escrow_authority(program_id) is None {
        Err(SaleError::AuthorizationError)
    } else if token_balance(accounts[2].data@) is None {
        Err(SaleError::DecodeError)
    } else if accounts[3].key@ != token_program_key() {
        Err(SaleError::OwnershipError)
    } else {
        Ok(
            Outcome {
                calls: seq![
                    Call {
                        request: token_transfer_request(
                            accounts[3].key@,
                            accounts[2].key@,
                            accounts[1].key@,
                            escrow_authority(program_id)->Some_0.0,
                            token_balance(accounts[2].data@)->Some_0,
                        ),
                        accounts: seq![2usize, 1usize, 4usize, 3usize],
                        signer_bump: Some(escrow_authority(program_id)->Some_0.1),
                    },
                    Call {
                        request: close_account_request(
                            accounts[3].key@,
                            accounts[2].key@,
                            accounts[0].key@,
                            escrow_authority(program_id)->Some_0.0,
                        ),
                        accounts: seq![3usize, 2usize, 0usize, 4usize],
                        signer_bump: Some(escrow_authority(program_id)->Some_0.1),
                    },
                ],
                record: RecordChange::Close { account: 5, heir: 0 },
            },
        )
    }
}

/// What an instruction comes to: its bytes are decoded, and the handler of
/// its kind decides.
pub open spec fn process_outcome(
    program_id: Seq<u8>,
    accounts: Seq<AccountSnapshot>,
    instruction_data: Seq<u8>,
    host: Host,
) -> Result<Outcome, SaleError> {
    match parsed(instruction_data) {
        None => Err(SaleError::DecodeError),
        Some(
            TokenSaleInstruction::InitTokenSale {
                per_token_price,
                max_token_price,
                increase_token_price,
                phase_delay_time,
            },
        ) => init_outcome(
            accounts,
            program_id,
            per_token_price,
            max_token_price,
            increase_token_price,
            phase_delay_time,
            host,
        ),
        Some(TokenSaleInstruction::BuyToken { number_of_tokens }) => buy_outcome(
            accounts,
            program_id,
            number_of_tokens,
            host,
        ),
        Some(TokenSaleInstruction::AirdropToken { number_of_tokens }) => airdrop_outcome(
            accounts,
            program_id,
            number_of_tokens,
        ),
        Some(TokenSaleInstruction::EndTokenSale {  }) => end_outcome(accounts, program_id),
    }
}

/// Whether a handler's result is the given outcome: the same refusal, or a
/// settlement whose value is the outcome's.
pub open spec fn settles(res: Result<Settlement, SaleError>, outcome: Result<Outcome, SaleError>) -> bool {
    match res {
        Ok(settlement) => outcome == Ok::<Outcome, SaleError>(settlement@),
        Err(e) => outcome == Err::<Outcome, SaleError>(e),
    }
}

/// The dispatcher of the sale.
pub struct Processor;

impl Processor {
    /// Reads the sale record that a purchase or a free allocation works on,
    /// once the account list is long enough, the caller has signed, and
    /// seller and escrow are those the record names.
    fn open_running_sale(accounts: &[AccountSnapshot], expected: usize) -> (res: Result<
        TokenSaleProgramData,
        SaleError,
    >)
        requires
            expected >= 4,
        ensures
            match res {
                Ok(record) => running_sale(accounts@, expected as int) == Ok::<
                    SaleRecord,
                    SaleError,
                >(record@),
                Err(e) => running_sale(accounts@, expected as int) == Err::<SaleRecord, SaleError>(
                    e,
                ),
            },
    {
        if accounts.len() < expected {
            return Err(SaleError::DataMismatchError);
        }
        if !accounts[0].is_signer {
            return Err(SaleError::AuthorizationError);
        }
        let record = match TokenSaleProgramData::unpack_unchecked(accounts[3].data.as_slice()) {
            Ok(record) => record,
            Err(e) => {
                return Err(SaleError::DecodeError);
            },
        };
        if !same_key(&accounts[1].key, &record.seller_pubkey) {
            return Err(SaleError::DataMismatchError);
        }
        if !same_key(&accounts[2].key, &record.temp_token_account_pubkey) {
            return Err(SaleError::DataMismatchError);
        }
        if !record.is_initialized() {
            return Err(SaleError::StateError);
        }
        Ok(record)
    }

    /// Whether a sale can be set up on these terms.
    pub fn accepts_terms(per_token_price: u64, max_token_price: u64, phase_delay_time: u64) -> (ok:
        bool)
        ensures
            ok == terms_acceptable(per_token_price, max_token_price, phase_delay_time),
    {
        per_token_price <= max_token_price && phase_delay_time != 0 && phase_delay_time
            <= 0x7fff_ffff_ffff_ffff
    }

    /// How many accounts `instruction` is handed. A shorter list is refused.
    pub fn accounts_expected(instruction: &TokenSaleInstruction) -> (count: usize)
        ensures
            count == accounts_needed(*instruction),
    {
        match instruction {
            TokenSaleInstruction::InitTokenSale { .. } => 5,
            TokenSaleInstruction::BuyToken { .. } => 8,
            TokenSaleInstruction::AirdropToken { .. } => 7,
            TokenSaleInstruction::EndTokenSale {  } => 6,
        }
    }

    /// Sets up a sale: the record is filled in, and the escrow is handed to
    /// the authority that the program derives. Terms on which no sale can
    /// run are refused as a malformed instruction.
    pub fn init_token_sale_program(
        account_info_list: &[AccountSnapshot],
        token_sale_program_id: &[u8; 32],
        per_token_price: u64,
        max_token_price: u64,
        increase_token_price: u64,
        phase_delay_time: u64,
        host: &Host,
    ) -> (res: Result<Settlement, SaleError>)
        ensures
            settles(
                res,
                init_outcome(
                    account_info_list@,
                    token_sale_program_id@,
                    per_token_price,
                    max_token_price,
                    increase_token_price,
                    phase_delay_time,
                    *host,
                ),
            ),
    {
        if account_info_list.len() < 5 {
            return Err(SaleError::DataMismatchError);
        }
        let seller = &account_info_list[0];
        let escrow = &account_info_list[1];
        if !seller.is_signer {
            return Err(SaleError::AuthorizationError);
        }
        let token_program = token_program_id();
        if !same_key(&escrow.owner, &token_program) {
            return Err(SaleError::OwnershipError);
        }
        if !host.minimum_balance_met {
            return Err(SaleError::BalanceError);
        }
        let mut record = match TokenSaleProgramData::unpack_unchecked(
            account_info_list[2].data.as_slice(),
        ) {
            Ok(record) => record,
            Err(e) => {
                return Err(SaleError::DecodeError);
            },
        };
        if record.is_initialized() {
            return Err(SaleError::StateError);
        }
        if !Self::accepts_terms(per_token_price, max_token_price, phase_delay_time) {
            return Err(SaleError::DecodeError);
        }
        record.init(
            true,
            seller.key,
            escrow.key,
            per_token_price,
            max_token_price,
            increase_token_price,
            0,
            host.now,
            phase_delay_time as i64,
        );
        let (authority, bump) = match find_program_address(
            AUTHORITY_SEED.as_slice(),
            token_sale_program_id,
        ) {
            Some(found) => found,
            None => {
                return Err(SaleError::AuthorizationError);
            },
        };
        let instruction = match set_account_owner(
            &account_info_list[4].key,
            &escrow.key,
            &authority,
            &seller.key,
        ) {
            Some(instruction) => instruction,
            None => {
                return Err(SaleError::OwnershipError);
            },
        };
        let call = LedgerCall { instruction, accounts: vec![4, 1, 0], signer_bump: None };
        let settlement = Settlement {
            calls: vec![call],
            record: RecordWrite::Store { account: 2, record },
        };
        proof {
            let outcome = init_outcome(
                account_info_list@,
                token_sale_program_id@,
                per_token_price,
                max_token_price,
                increase_token_price,
                phase_delay_time,
                *host,
            );
            assert(settlement@.calls =~= outcome->Ok_0.calls);
        }
        Ok(settlement)
    }

    /// Sells tokens at the price of the current phase: the buyer pays the
    /// seller, the escrow pays out the tokens, and the record counts them.
    pub fn buy_token(
        accounts: &[AccountSnapshot],
        token_sale_program_id: &[u8; 32],
        number_of_tokens: u64,
        host: &Host,
    ) -> (res: Result<Settlement, SaleError>)
        ensures
            settles(res, buy_outcome(accounts@, token_sale_program_id@, number_of_tokens, *host)),
    {
        let mut record = match Self::open_running_sale(accounts, 8) {
            Ok(record) => record,
            Err(e) => {
                return Err(e);
            },
        };
        let cost = match record_purchase(&mut record, host.now, number_of_tokens) {
            Ok(cost) => cost,
            Err(e) => {
                return Err(SaleError::ArithmeticError);
            },
        };
        let payment = native_transfer(&accounts[0].key, &accounts[1].key, cost);
        let (authority, bump) = match find_program_address(
            AUTHORITY_SEED.as_slice(),
            token_sale_program_id,
        ) {
            Some(found) => found,
            None => {
                return Err(SaleError::AuthorizationError);
            },
        };
        let delivery = match token_transfer(
            &accounts[6].key,
            &accounts[2].key,
            &accounts[5].key,
            &authority,
            number_of_tokens,
        ) {
            Some(instruction) => instruction,
            None => {
                return Err(SaleError::OwnershipError);
            },
        };
        let pay = LedgerCall { instruction: payment, accounts: vec![0, 1, 4], signer_bump: None };
        let deliver = LedgerCall {
            instruction: delivery,
            accounts: vec![2, 5, 7, 6],
            signer_bump: Some(bump),
        };
        let settlement = Settlement {
            calls: vec![pay, deliver],
            record: RecordWrite::Store { account: 3, record },
        };
        proof {
            let outcome = buy_outcome(accounts@, token_sale_program_id@, number_of_tokens, *host);
            assert(settlement@.calls =~= outcome->Ok_0.calls);
        }
        Ok(settlement)
    }

    /// Gives tokens away: the escrow pays them out to the account named, and
    /// the record counts them.
    pub fn airdrop_token(
        accounts: &[AccountSnapshot],
        token_sale_program_id: &[u8; 32],
        number_of_tokens: u64,
    ) -> (res: Result<Settlement, SaleError>)
        ensures
            settles(res, airdrop_outcome(accounts@, token_sale_program_id@, number_of_tokens)),
    {
        let mut record = match Self::open_running_sale(accounts, 7) {
            Ok(record) => record,
            Err(e) => {
                return Err(e);
            },
        };
        match record_grant(&mut record, number_of_tokens) {
            Ok(counted) => {},
            Err(e) => {
                return Err(SaleError::ArithmeticError);
            },
        }
        let (authority, bump) = match find_program_address(
            AUTHORITY_SEED.as_slice(),
            token_sale_program_id,
        ) {
            Some(found) => found,
            None => {
                return Err(SaleError::AuthorizationError);
            },
        };
        let delivery = match token_transfer(
            &accounts[5].key,
            &accounts[2].key,
            &accounts[4].key,
            &authority,
            number_of_tokens,
        ) {
            Some(instruction) => instruction,
            None => {
                return Err(SaleError::OwnershipError);
            },
        };
        let deliver = LedgerCall {
            instruction: delivery,
            accounts: vec![2, 4, 6, 5],
            signer_bump: Some(bump),
        };
        let settlement = Settlement {
            calls: vec![deliver],
            record: RecordWrite::Store { account: 3, record },
        };
        proof {
            let outcome = airdrop_outcome(accounts@, token_sale_program_id@, number_of_tokens);
            assert(settlement@.calls =~= outcome->Ok_0.calls);
        }
        Ok(settlement)
    }

    /// Closes the sale: every token left in escrow goes to the seller's
    /// token account, the escrow account is closed in the seller's favour,
    /// and the sale record is given up.
    pub fn end_token_sale(accounts: &[AccountSnapshot], token_sale_program_id: &[u8; 32]) -> (res:
        Result<Settlement, SaleError>)
        ensures
            settles(res, end_outcome(accounts@, token_sale_program_id@)),
    {
        if accounts.len() < 6 {
            return Err(SaleError::DataMismatchError);
        }
        let (authority, bump) = match find_program_address(
            AUTHORITY_SEED.as_slice(),
            token_sale_program_id,
        ) {
            Some(found) => found,
            None => {
                return Err(SaleError::AuthorizationError);
            },
        };
        let remaining = match unpack_token_balance(accounts[2].data.as_slice()) {
            Some(remaining) => remaining,
            None => {
                return Err(SaleError::DecodeError);
            },
        };
        let refund = match token_transfer(
            &accounts[3].key,
            &accounts[2].key,
            &accounts[1].key,
            &authority,
            remaining,
        ) {
            Some(instruction) => instruction,
            None => {
                return Err(SaleError::OwnershipError);
            },
        };
        let closing = match close_token_account(
            &accounts[3].key,
            &accounts[2].key,
            &accounts[0].key,
            &authority,
        ) {
            Some(instruction) => instruction,
            None => {
                return Err(SaleError::OwnershipError);
            },
        };
        let give_back = LedgerCall {
            instruction: refund,
            accounts: vec![2, 1, 4, 3],
            signer_bump: Some(bump),
        };
        let close = LedgerCall {
            instruction: closing,
            accounts: vec![3, 2, 0, 4],
            signer_bump: Some(bump),
        };
        let settlement = Settlement {
            calls: vec![give_back, close],
            record: RecordWrite::Close { account: 5, heir: 0 },
        };
        proof {
            let outcome = end_outcome(accounts@, token_sale_program_id@);
            assert(settlement@.calls =~= outcome->Ok_0.calls);
        }
        Ok(settlement)
    }

    /// Gives up an account in favour of its heir: the heir's balance grows
    /// by the whole balance of the account, and the account keeps neither
    /// balance nor storage. A sum that does not fit the heir's balance is
    /// refused.
    pub fn reclaim_record_balance(heir_lamports: u64, account_lamports: u64) -> (res: Result<
        Reclaimed,
        SaleError,
    >)
        ensures
            heir_lamports + account_lamports <= u64::MAX ==> res is Ok
                && res->Ok_0.heir_lamports == heir_lamports + account_lamports
                && res->Ok_0.account_lamports == 0 && res->Ok_0.account_data@ == Seq::<
                u8,
            >::empty(),
            heir_lamports + account_lamports > u64::MAX ==> res == Err::<Reclaimed, SaleError>(
                SaleError::BalanceError,
            ),
    {
        if account_lamports > u64::MAX - heir_lamports {
            return Err(SaleError::BalanceError);
        }
        Ok(
            Reclaimed {
                heir_lamports: heir_lamports + account_lamports,
                account_lamports: 0,
                account_data: Vec::new(),
            },
        )
    }

    /// Decodes an instruction and hands it to the handler of its kind.
    pub fn process(
        token_program_id: &[u8; 32],
        accounts: &[AccountSnapshot],
        instruction_data: &[u8],
        host: &Host,
    ) -> (res: Result<Settlement, SaleError>)
        ensures
            settles(res, process_outcome(token_program_id@, accounts@, instruction_data@, *host)),
    {
        let instruction = match TokenSaleInstruction::unpack(instruction_data) {
            Ok(instruction) => instruction,
            Err(e) => {
                return Err(SaleError::DecodeError);
            },
        };
        match instruction {
            TokenSaleInstruction::InitTokenSale {
                per_token_price,
                max_token_price,
                increase_token_price,
                phase_delay_time,
            } => Self::init_token_sale_program(
                accounts,
                token_program_id,
                per_token_price,
                max_token_price,
                increase_token_price,
                phase_delay_time,
                host,
            ),
            TokenSaleInstruction::BuyToken { number_of_tokens } => Self::buy_token(
                accounts,
                token_program_id,
                number_of_tokens,
                host,
            ),
            TokenSaleInstruction::AirdropToken { number_of_tokens } => Self::airdrop_token(
                accounts,
                token_program_id,
                number_of_tokens,
            ),
            TokenSaleInstruction::EndTokenSale {  } => Self::end_token_sale(
                accounts,
                token_program_id,
            ),
        }
    }
}

/// Setting up a sale twice is refused: whatever else holds of the
/// instruction, a record that is already initialized is not written again;
/// and where the seller signed, the escrow belongs to the token program and
/// the record's account holds its minimum balance, the refusal names the
/// state of the record as its reason, whatever the terms asked for.
pub proof fn lemma_init_refuses_running_sale(
    accounts: Seq<AccountSnapshot>,
    program_id: Seq<u8>,
    per_token_price: u64,
    max_token_price: u64,
    increase_token_price: u64,
    phase_delay_time: u64,
    host: Host,
)
    requires
        accounts.len() >= 3,
        stored_record(accounts[2]) is Some,
        stored_record(accounts[2])->Some_0.is_initialized,
    ensures
        init_outcome(
            accounts,
            program_id,
            per_token_price,
            max_token_price,
            increase_token_price,
            phase_delay_time,
            host,
        ) is Err,
        accounts.len() >= 5 && accounts[0].is_signer && accounts[1].owner@ == token_program_key()
            && host.minimum_balance_met ==> init_outcome(
            accounts,
            program_id,
            per_token_price,
            max_token_price,
            increase_token_price,
            phase_delay_time,
            host,
        ) == Err::<Outcome, SaleError>(SaleError::StateError),
{
}

/// A sale that was set up begins within its bounds: the record that is
/// stored is initialized, names the seller and the escrow of the
/// instruction, has handed out nothing, begins its first phase at the
/// host's time, has a price at or below its maximum and phases of a
/// positive length.
pub proof fn lemma_init_stores_sound_record(
    accounts: Seq<AccountSnapshot>,
    program_id: Seq<u8>,
    per_token_price: u64,
    max_token_price: u64,
    increase_token_price: u64,
    phase_delay_time: u64,
    host: Host,
)
    requires
        init_outcome(
            accounts,
            program_id,
            per_token_price,
            max_token_price,
            increase_token_price,
            phase_delay_time,
            host,
        ) is Ok,
    ensures
        ({
            let change = init_outcome(
                accounts,
                program_id,
                per_token_price,
                max_token_price,
                increase_token_price,
                phase_delay_time,
                host,
            )->Ok_0.record;
            &&& change is Store
            &&& change->Store_account == 2
            &&& change->Store_record.is_initialized
            &&& change->Store_record.seller_pubkey == accounts[0].key@
            &&& change->Store_record.temp_token_account_pubkey == accounts[1].key@
            &&& change->Store_record.per_token_price == per_token_price
            &&& change->Store_record.max_token_price == max_token_price
            &&& change->Store_record.increase_token_price == increase_token_price
            &&& change->Store_record.per_token_price <= change->Store_record.max_token_price
            &&& change->Store_record.purchased_token_amount == 0
            &&& change->Store_record.phase_start_time == host.now
            &&& change->Store_record.phase_delay_time == phase_delay_time
            &&& change->Store_record.phase_delay_time > 0
        }),
{
}

/// From the day a sale is set up, over any run of accepted purchases and
/// free allocations: the count of tokens handed out is the sum of the
/// tokens asked for, the price stays at or below the maximum, the phase
/// start does not fall behind the day the sale began, and the phases keep
/// their positive length.
pub proof fn lemma_sale_stays_sound(
    accounts: Seq<AccountSnapshot>,
    program_id: Seq<u8>,
    per_token_price: u64,
    max_token_price: u64,
    increase_token_price: u64,
    phase_delay_time: u64,
    host: Host,
    steps: Seq<Disbursement>,
)
    requires
        init_outcome(
            accounts,
            program_id,
            per_token_price,
            max_token_price,
            increase_token_price,
            phase_delay_time,
            host,
        ) is Ok,
        all_accepted(
            init_outcome(
                accounts,
                program_id,
                per_token_price,
                max_token_price,
                increase_token_price,
                phase_delay_time,
                host,
            )->Ok_0.record->Store_record,
            steps,
        ),
    ensures
        ({
            let begun = init_outcome(
                accounts,
                program_id,
                per_token_price,
                max_token_price,
                increase_token_price,
                phase_delay_time,
                host,
            )->Ok_0.record->Store_record;
            &&& replayed(begun, steps).purchased_token_amount == tokens_requested(steps)
            &&& replayed(begun, steps).per_token_price <= replayed(begun, steps).max_token_price
            &&& replayed(begun, steps).per_token_price >= per_token_price
            &&& replayed(begun, steps).phase_start_time >= host.now
            &&& replayed(begun, steps).phase_delay_time > 0
            &&& replayed(begun, steps).is_initialized
        }),
{
    let begun = init_outcome(
        accounts,
        program_id,
        per_token_price,
        max_token_price,
        increase_token_price,
        phase_delay_time,
        host,
    )->Ok_0.record->Store_record;
    lemma_run_counts_every_token(begun, steps);
}

/// An instruction that is handed fewer accounts than it needs is refused
/// for that reason.
pub proof fn lemma_short_list_is_refused(
    program_id: Seq<u8>,
    accounts: Seq<AccountSnapshot>,
    instruction_data: Seq<u8>,
    host: Host,
)
    requires
        parsed(instruction_data) is Some,
        accounts.len() < accounts_needed(parsed(instruction_data)->Some_0),
    ensures
        process_outcome(program_id, accounts, instruction_data, host) == Err::<Outcome, SaleError>(
            SaleError::DataMismatchError,
        ),
{
}

/// A purchase that names another seller or another escrow than the record
/// does is refused, whatever else holds of it; and where the account list is
/// complete and the buyer signed, the refusal names the mismatch as its
/// reason, whether or not the record's sale was set up. The same holds of
/// a free allocation.
pub proof fn lemma_strangers_are_refused(
    accounts: Seq<AccountSnapshot>,
    program_id: Seq<u8>,
    number_of_tokens: u64,
    host: Host,
)
    requires
        accounts.len() >= 4,
        stored_record(accounts[3]) is Some,
        accounts[1].key@ != stored_record(accounts[3])->Some_0.seller_pubkey || accounts[2].key@
            != stored_record(accounts[3])->Some_0.temp_token_account_pubkey,
    ensures
        buy_outcome(accounts, program_id, number_of_tokens, host) is Err,
        airdrop_outcome(accounts, program_id, number_of_tokens) is Err,
        accounts.len() >= 8 && accounts[0].is_signer ==> buy_outcome(
            accounts,
            program_id,
            number_of_tokens,
            host,
        ) == Err::<Outcome, SaleError>(SaleError::DataMismatchError),
        accounts.len() >= 7 && accounts[0].is_signer ==> airdrop_outcome(
            accounts,
            program_id,
            number_of_tokens,
        ) == Err::<Outcome, SaleError>(SaleError::DataMismatchError),
{
}

/// Closing the sale empties the escrow into the seller's hands: the first
/// call moves the whole token balance of the escrow to the seller's token
/// account, the second closes the escrow in the seller's favour, both on
/// the word of the derived authority, and the sale record is given up.
pub proof fn lemma_end_returns_everything(accounts: Seq<AccountSnapshot>, program_id: Seq<u8>)
    requires
        end_outcome(accounts, program_id) is Ok,
    ensures
        accounts.len() >= 6,
        token_balance(accounts[2].data@) is Some,
        escrow_authority(program_id) is Some,
        end_outcome(accounts, program_id)->Ok_0.record == (RecordChange::Close {
            account: 5,
            heir: 0,
        }),
        end_outcome(accounts, program_id)->Ok_0.calls.len() == 2,
        end_outcome(accounts, program_id)->Ok_0.calls[0].request == token_transfer_request(
            token_program_key(),
            accounts[2].key@,
            accounts[1].key@,
            escrow_authority(program_id)->Some_0.0,
            token_balance(accounts[2].data@)->Some_0,
        ),
        end_outcome(accounts, program_id)->Ok_0.calls[1].request == close_account_request(
            token_program_key(),
            accounts[2].key@,
            accounts[0].key@,
            escrow_authority(program_id)->Some_0.0,
        ),
{
}

} // verus!
