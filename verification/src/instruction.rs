//! The pieces an instruction is described by: the program it is for, the
//! accounts it touches and its payload bytes.
//!
//! The payloads are built by `spl_token` and `solana_sdk`; their byte layouts
//! are fixed by those programs' wire formats and stated here.

use crate::encoding::{base58_encode, encodable, encode_base58};
use solana_sdk::program_error::ProgramError;
use solana_sdk::pubkey::Pubkey;
use vstd::prelude::*;

verus! {

/// Address of the SPL Token program, as text.
pub open spec fn token_program_address() -> Seq<char> {
    "TokenkegQfeZyiNwAJbNbGKPFXCWuBvf9Ss623VQ5DA"@
}

/// Address of the System program, as text.
pub open spec fn system_program_address() -> Seq<char> {
    "11111111111111111111111111111111"@
}

/// Address of the rent sysvar, as text.
pub open spec fn rent_sysvar_address() -> Seq<char> {
    "SysvarRent111111111111111111111111111111111"@
}

/// The eight bytes of `value`, least significant first.
pub open spec fn u64_le_bytes(value: u64) -> Seq<u8> {
    seq![
        (value % 0x100) as u8,
        (value / 0x100 % 0x100) as u8,
        (value / 0x1_0000 % 0x100) as u8,
        (value / 0x100_0000 % 0x100) as u8,
        (value / 0x1_0000_0000 % 0x100) as u8,
        (value / 0x100_0000_0000 % 0x100) as u8,
        (value / 0x1_0000_0000_0000 % 0x100) as u8,
        (value / 0x100_0000_0000_0000 % 0x100) as u8,
    ]
}

/// An optional address on the wire: a zero byte for none, a one byte and the
/// address otherwise.
pub open spec fn optional_pubkey_bytes(pubkey: Option<[u8; 32]>) -> Seq<u8> {
    match pubkey {
        Some(key) => seq![1u8] + key@,
        None => seq![0u8],
    }
}

/// Payload of the token program's `InitializeMint`: tag 0, the decimals, the
/// mint authority and the optional freeze authority.
pub open spec fn initialize_mint_bytes(
    mint_authority: Seq<u8>,
    freeze_authority: Option<[u8; 32]>,
    decimals: u8,
) -> Seq<u8> {
    seq![0u8, decimals] + mint_authority + optional_pubkey_bytes(freeze_authority)
}

/// Payload of the token program's `MintTo`: tag 7 and the amount.
pub open spec fn mint_to_bytes(amount: u64) -> Seq<u8> {
    seq![7u8] + u64_le_bytes(amount)
}

/// Payload of the token program's `TransferChecked`: tag 12, the amount and
/// the decimals the sender believes the mint to have.
pub open spec fn transfer_checked_bytes(amount: u64, decimals: u8) -> Seq<u8> {
    seq![12u8] + u64_le_bytes(amount) + seq![decimals]
}

/// Payload of the system program's `Transfer`: the variant's index, 2, as four
/// little-endian bytes, then the lamports.
pub open spec fn system_transfer_bytes(lamports: u64) -> Seq<u8> {
    seq![2u8, 0u8, 0u8, 0u8] + u64_le_bytes(lamports)
}

/// The associated token account that `spl_associated_token_account` derives
/// for `wallet` and `mint` under the SPL Token program.
pub uninterp spec fn associated_token_address(wallet: Seq<u8>, mint: Seq<u8>) -> Seq<u8>;

/// The error of `solana_sdk` with which an instruction builder fails. Nothing
/// is known of a value but what its `Display` writes.
#[verifier::external_type_specification]
#[verifier::external_body]
pub struct ExProgramError(solana_sdk::program_error::ProgramError);

/// Calls `spl_token::id`. Trusted: the program's address, written in Base58,
/// is the text the crate declares it with.
#[verifier::external_body]
pub(crate) fn token_program_id() -> (id: [u8; 32])
    ensures
        base58_encode(id@) == token_program_address(),
{
    spl_token::id().to_bytes()
}

/// Calls `solana_sdk::system_program::id`. Trusted: the program's address,
/// written in Base58, is the text the crate declares it with.
#[verifier::external_body]
pub(crate) fn system_program_id() -> (id: [u8; 32])
    ensures
        base58_encode(id@) == system_program_address(),
{
    solana_sdk::system_program::id().to_bytes()
}

/// Calls `solana_sdk::sysvar::rent::id`. Trusted: the sysvar's address,
/// written in Base58, is the text the crate declares it with.
#[verifier::external_body]
pub(crate) fn rent_sysvar_id() -> (id: [u8; 32])
    ensures
        base58_encode(id@) == rent_sysvar_address(),
{
    solana_sdk::sysvar::rent::id().to_bytes()
}

/// Calls `spl_associated_token_account::get_associated_token_address`.
/// Trusted: the address is a function of wallet and mint alone. The search
/// behind it gives up, by panicking, only if none of 255 candidate addresses
/// lies off the curve, which the crate documents as statistically improbable.
#[verifier::external_body]
pub(crate) fn derive_associated_token_address(
    wallet: &[u8; 32],
    mint: &[u8; 32],
) -> (address: [u8; 32])
    ensures
        address@ == associated_token_address(wallet@, mint@),
{
    spl_associated_token_account::get_associated_token_address(
        &Pubkey::from(*wallet),
        &Pubkey::from(*mint),
    ).to_bytes()
}

/// Calls `spl_token::instruction::initialize_mint` for the SPL Token program
/// and keeps the instruction's payload. Trusted: the call fails only for a
/// foreign program id, so it succeeds here, and the payload is laid out as
/// `initialize_mint_bytes` says.
#[verifier::external_body]
pub(crate) fn initialize_mint_data(
    mint: &[u8; 32],
    mint_authority: &[u8; 32],
    freeze_authority: Option<[u8; 32]>,
    decimals: u8,
) -> (data: Result<Vec<u8>, ProgramError>)
    ensures
        data is Ok,
        data matches Ok(bytes) ==> bytes@ == initialize_mint_bytes(
            mint_authority@,
            freeze_authority,
            decimals,
        ),
{
    spl_token::instruction::initialize_mint(
        &spl_token::id(),
        &Pubkey::from(*mint),
        &Pubkey::from(*mint_authority),
        freeze_authority.map(Pubkey::from).as_ref(),
        decimals,
    ).map(|instruction| instruction.data)
}

/// Calls `spl_token::instruction::mint_to` for the SPL Token program and keeps
/// the instruction's payload. Trusted: the call fails only for a foreign
/// program id, so it succeeds here, and the payload is laid out as
/// `mint_to_bytes` says.
#[verifier::external_body]
pub(crate) fn mint_to_data(
    mint: &[u8; 32],
    account: &[u8; 32],
    owner: &[u8; 32],
    signers: &[[u8; 32]],
    amount: u64,
) -> (data: Result<Vec<u8>, ProgramError>)
    ensures
        data is Ok,
        data matches Ok(bytes) ==> bytes@ == mint_to_bytes(amount),
{
    let signers: Vec<Pubkey> = signers.iter().map(|key| Pubkey::from(*key)).collect();
    let signers: Vec<&Pubkey> = signers.iter().collect();
    spl_token::instruction::mint_to(
        &spl_token::id(),
        &Pubkey::from(*mint),
        &Pubkey::from(*account),
        &Pubkey::from(*owner),
        &signers,
        amount,
    ).map(|instruction| instruction.data)
}

/// Calls `spl_token::instruction::transfer_checked` for the SPL Token program
/// and keeps the instruction's payload. Trusted: the call fails only for a
/// foreign program id, so it succeeds here, and the payload is laid out as
/// `transfer_checked_bytes` says.
#[verifier::external_body]
pub(crate) fn transfer_checked_data(
    source: &[u8; 32],
    mint: &[u8; 32],
    destination: &[u8; 32],
    authority: &[u8; 32],
    signers: &[[u8; 32]],
    amount: u64,
    decimals: u8,
) -> (data: Result<Vec<u8>, ProgramError>)
    ensures
        data is Ok,
        data matches Ok(bytes) ==> bytes@ == transfer_checked_bytes(amount, decimals),
{
    let signers: Vec<Pubkey> = signers.iter().map(|key| Pubkey::from(*key)).collect();
    let signers: Vec<&Pubkey> = signers.iter().collect();
    spl_token::instruction::transfer_checked(
        &spl_token::id(),
        &Pubkey::from(*source),
        &Pubkey::from(*mint),
        &Pubkey::from(*destination),
        &Pubkey::from(*authority),
        &signers,
        amount,
        decimals,
    ).map(|instruction| instruction.data)
}

/// Calls `solana_sdk::system_instruction::transfer` and keeps the
/// instruction's payload. Trusted: the payload is the `bincode` form of
/// `SystemInstruction::Transfer`, laid out as `system_transfer_bytes` says.
#[verifier::external_body]
pub(crate) fn system_transfer_data(from: &[u8; 32], to: &[u8; 32], lamports: u64) -> (data: Vec<u8>)
    ensures
        data@ == system_transfer_bytes(lamports),
{
    solana_sdk::system_instruction::transfer(
        &Pubkey::from(*from),
        &Pubkey::from(*to),
        lamports,
    ).data
}

/// An account an instruction touches, by address.
pub struct AccountMeta {
    pub pubkey: [u8; 32],
    pub is_signer: bool,
    pub is_writable: bool,
}

/// An account an instruction touches, with its address as Base58 text.
pub struct AccountInfo {
    pub pubkey: String,
    pub is_signer: bool,
    pub is_writable: bool,
}

/// What an `AccountInfo` says.
pub struct AccountView {
    pub pubkey: Seq<char>,
    pub is_signer: bool,
    pub is_writable: bool,
}

/// What an instruction response says: every response that describes an
/// instruction has this shape.
pub struct InstructionView {
    pub program_id: Seq<char>,
    pub accounts: Seq<AccountView>,
    pub instruction_data: Seq<char>,
}

impl View for AccountInfo {
    type V = AccountView;

    open spec fn view(&self) -> AccountView {
        AccountView {
            pubkey: self.pubkey@,
            is_signer: self.is_signer,
            is_writable: self.is_writable,
        }
    }
}

/// The views of a list of accounts, in order.
pub open spec fn account_views(accounts: Seq<AccountInfo>) -> Seq<AccountView> {
    accounts.map_values(|info: AccountInfo| info@)
}

/// A writable account.
pub open spec fn writable(pubkey: Seq<u8>, is_signer: bool) -> AccountView {
    AccountView { pubkey: base58_encode(pubkey), is_signer, is_writable: true }
}

/// A read-only account.
pub open spec fn readonly(pubkey: Seq<u8>, is_signer: bool) -> AccountView {
    AccountView { pubkey: base58_encode(pubkey), is_signer, is_writable: false }
}

impl AccountMeta {
    /// A writable account.
    pub fn new(pubkey: [u8; 32], is_signer: bool) -> (meta: Self)
        ensures
            meta.pubkey == pubkey,
            meta.is_signer == is_signer,
            meta.is_writable,
    {
        Self { pubkey, is_signer, is_writable: true }
    }

    /// A read-only account.
    pub fn new_readonly(pubkey: [u8; 32], is_signer: bool) -> (meta: Self)
        ensures
            meta.pubkey == pubkey,
            meta.is_signer == is_signer,
            !meta.is_writable,
    {
        Self { pubkey, is_signer, is_writable: false }
    }

    /// What the account's description says: the same flags, and the address
    /// in Base58.
    pub open spec fn description(self) -> AccountView {
        AccountView {
            pubkey: base58_encode(self.pubkey@),
            is_signer: self.is_signer,
            is_writable: self.is_writable,
        }
    }

    /// Describes the account with its address as text.
    pub fn describe(&self) -> (info: AccountInfo)
        ensures
            info@ == self.description(),
    {
        AccountInfo {
            pubkey: encode_base58(self.pubkey.as_slice()),
            is_signer: self.is_signer,
            is_writable: self.is_writable,
        }
    }
}

/// Describes each account of `metas`, in order.
pub fn describe_accounts(metas: &Vec<AccountMeta>) -> (infos: Vec<AccountInfo>)
    ensures
        account_views(infos@) == metas@.map_values(|meta: AccountMeta| meta.description()),
{
    let mut infos: Vec<AccountInfo> = Vec::new();
    let mut i: usize = 0;
    while i < metas.len()
        invariant
            i <= metas.len(),
            infos@.len() == i,
            forall|j: int| 0 <= j < i ==> (#[trigger] infos@[j])@ == metas@[j].description(),
        decreases metas.len() - i,
    {
        infos.push(metas[i].describe());
        i += 1;
    }
    assert(account_views(infos@) =~= metas@.map_values(|meta: AccountMeta| meta.description()));
    infos
}

} // verus!
