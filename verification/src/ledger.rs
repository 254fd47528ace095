//! Requests to the ledger: moving native currency, moving tokens, handing an
//! account to a new authority, closing an account. The requests are built by
//! the ledger's own client libraries; this module states what they hold.
use vstd::prelude::*;
use solana_program::pubkey::Pubkey;
use crate::wire::le_bytes;
use crate::wire::le_value;

verus! {

/// One account named in a request, with what the request may do to it.
#[derive(Clone, Copy, Debug, PartialEq, Eq)]
pub struct AccountRole {
    /// The account's identifier.
    pub key: [u8; 32],
    /// Whether the account signs the request.
    pub is_signer: bool,
    /// Whether the request may change the account.
    pub is_writable: bool,
}

/// An account role as a mathematical value.
pub struct Role {
    pub key: Seq<u8>,
    pub is_signer: bool,
    pub is_writable: bool,
}

impl View for AccountRole {
    type V = Role;

    open spec fn view(&self) -> Role {
        Role { key: self.key@, is_signer: self.is_signer, is_writable: self.is_writable }
    }
}

/// A request to a program of the ledger.
#[derive(Clone, Debug, PartialEq, Eq)]
pub struct LedgerInstruction {
    /// The program that carries the request out.
    pub program_id: [u8; 32],
    /// The accounts the request names, in the order the program expects.
    pub accounts: Vec<AccountRole>,
    /// The request in the program's wire form.
    pub data: Vec<u8>,
}

/// A request as a mathematical value.
pub struct LedgerRequest {
    pub program_id: Seq<u8>,
    pub accounts: Seq<Role>,
    pub data: Seq<u8>,
}

impl View for LedgerInstruction {
    type V = LedgerRequest;

    open spec fn view(&self) -> LedgerRequest {
        LedgerRequest {
            program_id: self.program_id@,
            accounts: self.accounts@.map_values(|role: AccountRole| role@),
            data: self.data@,
        }
    }
}

/// An account that the request may change and that does not sign.
pub open spec fn changed(key: Seq<u8>) -> Role {
    Role { key, is_signer: false, is_writable: true }
}

/// An account that the request only reads and that does not sign.
pub open spec fn read(key: Seq<u8>) -> Role {
    Role { key, is_signer: false, is_writable: false }
}

/// An account that signs the request and is only read.
pub open spec fn signing(key: Seq<u8>) -> Role {
    Role { key, is_signer: true, is_writable: false }
}

/// The identifier of the token program.
pub open spec fn token_program_key() -> Seq<u8> {
    seq![
        6u8, 221u8, 246u8, 225u8, 215u8, 101u8, 161u8, 147u8, 217u8, 203u8, 225u8, 70u8, 206u8,
        235u8, 121u8, 172u8, 28u8, 180u8, 133u8, 237u8, 95u8, 91u8, 55u8, 145u8, 58u8, 140u8,
        245u8, 133u8, 126u8, 255u8, 0u8, 169u8,
    ]
}

/// The identifier of the system program, which moves native currency.
pub open spec fn system_program_key() -> Seq<u8> {
    Seq::new(32, |i: int| 0u8)
}

/// The request that moves `amount` tokens from `source` to `destination` on
/// the word of `authority`, which signs as the only signer.
pub open spec fn token_transfer_request(
    token_program: Seq<u8>,
    source: Seq<u8>,
    destination: Seq<u8>,
    authority: Seq<u8>,
    amount: u64,
) -> LedgerRequest {
    LedgerRequest {
        program_id: token_program,
        accounts: seq![changed(source), changed(destination), read(authority), signing(authority)],
        data: seq![3u8] + le_bytes(amount),
    }
}

/// The request that makes `new_owner` the owner of the token account
/// `account`, on the word of `owner`, which signs as the only signer.
pub open spec fn set_owner_request(
    token_program: Seq<u8>,
    account: Seq<u8>,
    new_owner: Seq<u8>,
    owner: Seq<u8>,
) -> LedgerRequest {
    LedgerRequest {
        program_id: token_program,
        accounts: seq![changed(account), read(owner), signing(owner)],
        data: seq![6u8, 2u8, 1u8] + new_owner,
    }
}

/// The request that closes the token account `account` and sends its balance
/// to `destination`, on the word of `owner`, which signs as the only signer.
pub open spec fn close_account_request(
    token_program: Seq<u8>,
    account: Seq<u8>,
    destination: Seq<u8>,
    owner: Seq<u8>,
) -> LedgerRequest {
    LedgerRequest {
        program_id: token_program,
        accounts: seq![changed(account), changed(destination), read(owner), signing(owner)],
        data: seq![9u8],
    }
}

/// The request that moves `lamports` units of native currency from `from`,
/// which signs, to `to`.
pub open spec fn native_transfer_request(from: Seq<u8>, to: Seq<u8>, lamports: u64) -> LedgerRequest {
    LedgerRequest {
        program_id: system_program_key(),
        accounts: seq![
            Role { key: from, is_signer: true, is_writable: true },
            changed(to),
        ],
        data: seq![2u8, 0u8, 0u8, 0u8] + le_bytes(lamports),
    }
}

/// Whether the four bytes at `at` mark an optional field as absent or
/// present.
pub open spec fn option_tag(data: Seq<u8>, at: int) -> bool {
    data[at] <= 1 && data[at + 1] == 0 && data[at + 2] == 0 && data[at + 3] == 0
}

/// Whether `data` is the state of a token account that is in use: 165 bytes,
/// the three optional fields marked properly, and the account initialized or
/// frozen.
pub open spec fn holds_token_account(data: Seq<u8>) -> bool {
    &&& data.len() == 165
    &&& option_tag(data, 72)
    &&& (data[108] == 1 || data[108] == 2)
    &&& option_tag(data, 109)
    &&& option_tag(data, 129)
}

/// The token balance that the state of a token account records.
pub open spec fn token_balance(data: Seq<u8>) -> Option<u64> {
    if holds_token_account(data) {
        Some(le_value(data.subrange(64, 72)) as u64)
    } else {
        None
    }
}

/// The address that a program derives from a seed, with the bump that makes
/// it an address no key pair can sign for; `None` where no bump does.
pub uninterp spec fn derived_address(seed: Seq<u8>, program_id: Seq<u8>) -> Option<(Seq<u8>, u8)>;

/// `spl_token::id`: the identifier under which the token program is
/// deployed. The contract gives its 32 bytes.
#[verifier::external_body]
pub(crate) fn token_program_id() -> (id: [u8; 32])
    ensures
        id@ == token_program_key(),
{
    spl_token::id().to_bytes()
}

/// `Pubkey::try_find_program_address` with one seed. The contract names the
/// result: the search depends on the seed and the program alone.
#[verifier::external_body]
pub(crate) fn find_program_address(seed: &[u8], program_id: &[u8; 32]) -> (found: Option<
    ([u8; 32], u8),
>)
    ensures
        match found {
            Some((key, bump)) => derived_address(seed@, program_id@) == Some((key@, bump)),
            None => derived_address(seed@, program_id@) is None,
        },
{
    let program = Pubkey::new_from_array(*program_id);
    let (key, bump) = Pubkey::try_find_program_address(&[seed], &program)?;
    Some((key.to_bytes(), bump))
}

/// `spl_token::instruction::transfer` with the authority as its only signer.
/// The builder refuses any program but the token program; otherwise the
/// request names source, destination, the authority and the signer, and its
/// data is the tag 3 and the amount.
#[verifier::external_body]
pub(crate) fn token_transfer(
    token_program: &[u8; 32],
    source: &[u8; 32],
    destination: &[u8; 32],
    authority: &[u8; 32],
    amount: u64,
) -> (built: Option<LedgerInstruction>)
    ensures
        token_program@ != token_program_key() ==> built is None,
        token_program@ == token_program_key() ==> built is Some && built->Some_0@
            == token_transfer_request(
            token_program@,
            source@,
            destination@,
            authority@,
            amount,
        ),
{
    let program = Pubkey::new_from_array(*token_program);
    let from = Pubkey::new_from_array(*source);
    let to = Pubkey::new_from_array(*destination);
    let signer = Pubkey::new_from_array(*authority);
    let request =
        spl_token::instruction::transfer(&program, &from, &to, &signer, &[&signer], amount).ok()?;
    let mut accounts = Vec::new();
    for meta in request.accounts.iter() {
        let key = meta.pubkey.to_bytes();
        accounts.push(AccountRole { key, is_signer: meta.is_signer, is_writable: meta.is_writable });
    }
    Some(LedgerInstruction { program_id: request.program_id.to_bytes(), accounts, data: request.data })
}

/// `spl_token::instruction::set_authority` for the authority "account
/// owner", with the present owner as its only signer. The builder refuses
/// any program but the token program; otherwise the request names the
/// account, the owner and the signer, and its data is the tag 6, the kind of
/// authority (2), the mark of a present value (1) and the new owner.
#[verifier::external_body]
pub(crate) fn set_account_owner(
    token_program: &[u8; 32],
    account: &[u8; 32],
    new_owner: &[u8; 32],
    owner: &[u8; 32],
) -> (built: Option<LedgerInstruction>)
    ensures
        token_program@ != token_program_key() ==> built is None,
        token_program@ == token_program_key() ==> built is Some && built->Some_0@
            == set_owner_request(token_program@, account@, new_owner@, owner@),
{
    let (program, owned) = (Pubkey::new_from_array(*token_program), Pubkey::new_from_array(*account));
    let (next, signer) = (Pubkey::new_from_array(*new_owner), Pubkey::new_from_array(*owner));
    let kind = spl_token::instruction::AuthorityType::AccountOwner;
    let request = spl_token::instruction::set_authority(
        &program, &owned, Some(&next), kind, &signer, &[&signer],
    ).ok()?;
    let mut accounts = Vec::new();
    for meta in request.accounts.iter() {
        let key = meta.pubkey.to_bytes();
        accounts.push(AccountRole { key, is_signer: meta.is_signer, is_writable: meta.is_writable });
    }
    Some(LedgerInstruction { program_id: request.program_id.to_bytes(), accounts, data: request.data })
}

/// `spl_token::instruction::close_account` with the owner as its only
/// signer. The builder refuses any program but the token program; otherwise
/// the request names the account, the destination, the owner and the signer,
/// and its data is the tag 9.
#[verifier::external_body]
pub(crate) fn close_token_account(
    token_program: &[u8; 32],
    account: &[u8; 32],
    destination: &[u8; 32],
    owner: &[u8; 32],
) -> (built: Option<LedgerInstruction>)
    ensures
        token_program@ != token_program_key() ==> built is None,
        token_program@ == token_program_key() ==> built is Some && built->Some_0@
            == close_account_request(token_program@, account@, destination@, owner@),
{
    let program = Pubkey::new_from_array(*token_program);
    let closed = Pubkey::new_from_array(*account);
    let to = Pubkey::new_from_array(*destination);
    let signer = Pubkey::new_from_array(*owner);
    let request =
        spl_token::instruction::close_account(&program, &closed, &to, &signer, &[&signer]).ok()?;
    let mut accounts = Vec::new();
    for meta in request.accounts.iter() {
        let key = meta.pubkey.to_bytes();
        accounts.push(AccountRole { key, is_signer: meta.is_signer, is_writable: meta.is_writable });
    }
    Some(LedgerInstruction { program_id: request.program_id.to_bytes(), accounts, data: request.data })
}

/// `solana_program::system_instruction::transfer`. The request goes to the
/// system program, names the payer as a signer and the receiver, and its
/// data is the tag 2 in four bytes and the amount.
#[verifier::external_body]
pub(crate) fn native_transfer(from: &[u8; 32], to: &[u8; 32], lamports: u64) -> (built:
    LedgerInstruction)
    ensures
        built@ == native_transfer_request(from@, to@, lamports),
{
    let payer = Pubkey::new_from_array(*from);
    let receiver = Pubkey::new_from_array(*to);
    let request = solana_program::system_instruction::transfer(&payer, &receiver, lamports);
    let mut accounts = Vec::new();
    for meta in request.accounts.iter() {
        let key = meta.pubkey.to_bytes();
        accounts.push(AccountRole { key, is_signer: meta.is_signer, is_writable: meta.is_writable });
    }
    LedgerInstruction { program_id: request.program_id.to_bytes(), accounts, data: request.data }
}

/// `spl_token::state::Account::unpack`, of which the balance is kept. The
/// state is accepted where it has 165 bytes, its optional fields are marked
/// with 0 or 1 and the account is in use; the balance is the little-endian
/// number at byte 64.
#[verifier::external_body]
pub(crate) fn unpack_token_balance(data: &[u8]) -> (amount: Option<u64>)
    ensures
        amount == token_balance(data@),
{
    let account = <spl_token::state::Account as solana_program::program_pack::Pack>::unpack(data);
    Some(account.ok()?.amount)
}

} // verus!
