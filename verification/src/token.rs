//! Instructions for the SPL Token program: initialising a mint, minting to an
//! account and transferring between the associated token accounts of two
//! wallets.

pub use crate::instruction::AccountInfo;

use crate::encoding::{base58_decode, base64_encode, encode_base58, encode_base64};
use crate::instruction::{
    account_views, associated_token_address, derive_associated_token_address, describe_accounts,
    initialize_mint_bytes, initialize_mint_data, mint_to_bytes, mint_to_data, readonly,
    rent_sysvar_address, rent_sysvar_id, system_program_address, system_program_id,
    token_program_address, token_program_id, transfer_checked_bytes, transfer_checked_data,
    writable, AccountMeta, AccountView, InstructionView,
};
use crate::keys::{is_pubkey_text, parse_pubkey, same_address, validate_pubkey};
use crate::response_types::{outcome, well_formed, ErrorResponse, SuccessResponse};
use vstd::prelude::*;
use vstd::string::StringExecFns;

verus! {

/// Most decimal places a mint may have.
pub const MAX_DECIMALS: u8 = 9;

/// Amount, in base units, that a mint instruction mints.
pub const MINT_AMOUNT: u64 = 1_000_000_000;

/// Decimal places a transfer states for the mint.
pub const TRANSFER_DECIMALS: u8 = 9;

/// A mint to initialise: its authority and address in Base58, and its decimals.
pub struct CreateTokenRequest {
    pub mint_authority: String,
    pub mint: String,
    pub decimals: u8,
}

/// A mint to mint from: its authority and address in Base58, and its decimals.
pub struct MintTokenRequest {
    pub mint_authority: String,
    pub mint: String,
    pub decimals: u8,
}

/// A token transfer: the wallets and the mint in Base58, and the amount in
/// base units.
pub struct SendTokenRequest {
    pub destination: String,
    pub mint: String,
    pub owner: String,
    pub amount: u64,
}

/// The instruction that initialises a mint.
pub struct CreateTokenResponse {
    pub program_id: String,
    pub accounts: Vec<AccountInfo>,
    pub instruction_data: String,
}

/// The instruction that mints tokens.
pub struct MintTokenResponse {
    pub program_id: String,
    pub accounts: Vec<AccountInfo>,
    pub instruction_data: String,
}

/// The instruction that transfers tokens.
pub struct SendTokenResponse {
    pub program_id: String,
    pub accounts: Vec<AccountInfo>,
    pub instruction_data: String,
}

impl View for CreateTokenResponse {
    type V = InstructionView;

    open spec fn view(&self) -> InstructionView {
        InstructionView {
            program_id: self.program_id@,
            accounts: account_views(self.accounts@),
            instruction_data: self.instruction_data@,
        }
    }
}

impl View for MintTokenResponse {
    type V = InstructionView;

    open spec fn view(&self) -> InstructionView {
        InstructionView {
            program_id: self.program_id@,
            accounts: account_views(self.accounts@),
            instruction_data: self.instruction_data@,
        }
    }
}

impl View for SendTokenResponse {
    type V = InstructionView;

    open spec fn view(&self) -> InstructionView {
        InstructionView {
            program_id: self.program_id@,
            accounts: account_views(self.accounts@),
            instruction_data: self.instruction_data@,
        }
    }
}

/// A read-only, non-signing account known by its Base58 address.
pub open spec fn program_account(address: Seq<char>) -> AccountView {
    AccountView { pubkey: address, is_signer: false, is_writable: false }
}

/// The instruction that initialises `mint` under `mint_authority`, with no
/// freeze authority.
pub open spec fn create_token_instruction(
    mint_authority: Seq<u8>,
    mint: Seq<u8>,
    decimals: u8,
) -> InstructionView {
    InstructionView {
        program_id: token_program_address(),
        accounts: seq![
            writable(mint, true),
            readonly(mint_authority, true),
            program_account(rent_sysvar_address()),
            program_account(system_program_address()),
        ],
        instruction_data: base64_encode(initialize_mint_bytes(mint_authority, None, decimals)),
    }
}

/// The instruction by which `mint_authority` mints `MINT_AMOUNT` of `mint`.
pub open spec fn mint_token_instruction(mint_authority: Seq<u8>, mint: Seq<u8>) -> InstructionView {
    InstructionView {
        program_id: token_program_address(),
        accounts: seq![
            writable(mint, true),
            readonly(mint_authority, true),
            program_account(system_program_address()),
        ],
        instruction_data: base64_encode(mint_to_bytes(MINT_AMOUNT)),
    }
}

/// The instruction by which `owner` sends `amount` of `mint` to `destination`,
/// each wallet standing in with its associated token account.
pub open spec fn send_token_instruction(
    destination: Seq<u8>,
    mint: Seq<u8>,
    owner: Seq<u8>,
    amount: u64,
) -> InstructionView {
    InstructionView {
        program_id: token_program_address(),
        accounts: seq![
            writable(associated_token_address(owner, mint), false),
            writable(associated_token_address(destination, mint), false),
            readonly(owner, true),
            readonly(mint, false),
            program_account(token_program_address()),
        ],
        instruction_data: base64_encode(transfer_checked_bytes(amount, TRANSFER_DECIMALS)),
    }
}

/// What `create_token` answers: the first failed check, or the instruction.
pub open spec fn create_token_spec(request: CreateTokenRequest) -> Result<
    InstructionView,
    Seq<char>,
> {
    match parse_pubkey(request.mint_authority@, "mint_authority"@) {
        Err(text) => Err(text),
        Ok(mint_authority) => match parse_pubkey(request.mint@, "mint"@) {
            Err(text) => Err(text),
            Ok(mint) => if request.decimals > MAX_DECIMALS {
                Err("Decimals must be between 0 and 9"@)
            } else {
                Ok(create_token_instruction(mint_authority, mint, request.decimals))
            },
        },
    }
}

/// What `mint_token` answers: the first failed check, or the instruction.
pub open spec fn mint_token_spec(request: MintTokenRequest) -> Result<InstructionView, Seq<char>> {
    match parse_pubkey(request.mint_authority@, "mintAuthority"@) {
        Err(text) => Err(text),
        Ok(mint_authority) => match parse_pubkey(request.mint@, "mint"@) {
            Err(text) => Err(text),
            Ok(mint) => if request.decimals > MAX_DECIMALS {
                Err("Decimals must be between 0 and 9"@)
            } else {
                Ok(mint_token_instruction(mint_authority, mint))
            },
        },
    }
}

/// What `send_token` answers: the first failed check, or the instruction.
pub open spec fn send_token_spec(request: SendTokenRequest) -> Result<InstructionView, Seq<char>> {
    if request.destination@.len() == 0 || request.mint@.len() == 0 || request.owner@.len() == 0 {
        Err("Missing required fields"@)
    } else {
        match parse_pubkey(request.destination@, "destination address"@) {
            Err(text) => Err(text),
            Ok(destination) => match parse_pubkey(request.mint@, "mint address"@) {
                Err(text) => Err(text),
                Ok(mint) => match parse_pubkey(request.owner@, "owner address"@) {
                    Err(text) => Err(text),
                    Ok(owner) => if request.amount == 0 {
                        Err("Amount must be greater than 0"@)
                    } else if owner == destination {
                        Err("Owner and destination addresses cannot be the same"@)
                    } else {
                        Ok(send_token_instruction(destination, mint, owner, request.amount))
                    },
                },
            },
        }
    }
}

/// `create_token` succeeds exactly when both addresses are Base58 for 32 bytes
/// and the decimals are at most nine: a malformed address is refused, and so
/// are decimals out of range.
pub proof fn lemma_create_token_succeeds_iff_valid(request: CreateTokenRequest)
    ensures
        create_token_spec(request) is Ok <==> {
            &&& is_pubkey_text(request.mint_authority@)
            &&& is_pubkey_text(request.mint@)
            &&& request.decimals <= MAX_DECIMALS
        },
{
}

/// `mint_token` succeeds exactly when both addresses are Base58 for 32 bytes
/// and the decimals are at most nine: a malformed address is refused, and so
/// are decimals out of range.
pub proof fn lemma_mint_token_succeeds_iff_valid(request: MintTokenRequest)
    ensures
        mint_token_spec(request) is Ok <==> {
            &&& is_pubkey_text(request.mint_authority@)
            &&& is_pubkey_text(request.mint@)
            &&& request.decimals <= MAX_DECIMALS
        },
{
}

/// `send_token` succeeds exactly when no field is empty, all three addresses
/// are Base58 for 32 bytes, the amount is not zero, and owner and destination
/// decode to different addresses: a malformed address, an amount of zero and
/// a transfer to oneself are each refused.
pub proof fn lemma_send_token_succeeds_iff_valid(request: SendTokenRequest)
    ensures
        send_token_spec(request) is Ok <==> {
            &&& request.destination@.len() > 0
            &&& request.mint@.len() > 0
            &&& request.owner@.len() > 0
            &&& is_pubkey_text(request.destination@)
            &&& is_pubkey_text(request.mint@)
            &&& is_pubkey_text(request.owner@)
            &&& request.amount > 0
            &&& base58_decode(request.owner@) != base58_decode(request.destination@)
        },
{
}

/// A token transfer whose owner and destination are the same text is refused.
pub proof fn lemma_send_token_rejects_self_transfer(request: SendTokenRequest)
    requires
        request.owner@ == request.destination@,
    ensures
        send_token_spec(request) is Err,
{
}

/// Refuses more than nine decimal places.
pub fn validate_decimals(decimals: u8) -> (result: Result<(), ErrorResponse>)
    ensures
        result is Ok <==> decimals <= MAX_DECIMALS,
        result matches Err(error) ==> error.says("Decimals must be between 0 and 9"@),
{
    if decimals > MAX_DECIMALS {
        return Err(ErrorResponse::new("Decimals must be between 0 and 9"));
    }
    Ok(())
}

/// Refuses an amount of zero.
pub fn validate_amount(amount: u64) -> (result: Result<(), ErrorResponse>)
    ensures
        result is Ok <==> amount > 0,
        result matches Err(error) ==> error.says("Amount must be greater than 0"@),
{
    if amount == 0 {
        return Err(ErrorResponse::new("Amount must be greater than 0"));
    }
    Ok(())
}

/// Builds the instruction that initialises the request's mint.
///
/// The mint signs and is written, the mint authority signs, and the rent
/// sysvar and the system program are listed read-only. Refuses an address that
/// is not Base58 for 32 bytes, the authority's first, and more than nine
/// decimals.
pub fn create_token(request: CreateTokenRequest) -> (result: Result<
    SuccessResponse<CreateTokenResponse>,
    ErrorResponse,
>)
    ensures
        well_formed(result),
        outcome(result) == create_token_spec(request),
{
    let mint_authority = match validate_pubkey(request.mint_authority.as_str(), "mint_authority") {
        Err(error) => {
            return Err(error);
        },
        Ok(pubkey) => pubkey,
    };
    let mint = match validate_pubkey(request.mint.as_str(), "mint") {
        Err(error) => {
            return Err(error);
        },
        Ok(pubkey) => pubkey,
    };
    match validate_decimals(request.decimals) {
        Err(error) => {
            return Err(error);
        },
        Ok(_) => {},
    }

    let token_program = token_program_id();

    let mut accounts: Vec<AccountMeta> = Vec::new();
    accounts.push(AccountMeta::new(mint, true));
    accounts.push(AccountMeta::new_readonly(mint_authority, true));
    accounts.push(AccountMeta::new_readonly(rent_sysvar_id(), false));
    accounts.push(AccountMeta::new_readonly(system_program_id(), false));

    let data = match initialize_mint_data(&mint, &mint_authority, None, request.decimals) {
        Err(error) => {
            // The builder fails only for a foreign program id, which it is
            // never given; should it fail all the same, its error is reported.
            let text = String::from_str("Failed to create token instruction: ").concat(
                error.to_string().as_str(),
            );
            return Err(ErrorResponse::new(text.as_str()));
        },
        Ok(data) => data,
    };

    let response = CreateTokenResponse {
        program_id: encode_base58(token_program.as_slice()),
        accounts: describe_accounts(&accounts),
        instruction_data: encode_base64(data.as_slice()),
    };
    assert(response@.accounts =~= create_token_instruction(
        mint_authority@,
        mint@,
        request.decimals,
    ).accounts);
    Ok(SuccessResponse::new(response))
}

/// Builds the instruction that mints `MINT_AMOUNT` from the request's mint.
///
/// The mint signs and is written, the mint authority signs, and the system
/// program is listed read-only. Refuses an address that is not Base58 for 32
/// bytes, the authority's first, and more than nine decimals.
pub fn mint_token(request: MintTokenRequest) -> (result: Result<
    SuccessResponse<MintTokenResponse>,
    ErrorResponse,
>)
    ensures
        well_formed(result),
        outcome(result) == mint_token_spec(request),
{
    let mint_authority = match validate_pubkey(request.mint_authority.as_str(), "mintAuthority") {
        Err(error) => {
            return Err(error);
        },
        Ok(pubkey) => pubkey,
    };
    let mint = match validate_pubkey(request.mint.as_str(), "mint") {
        Err(error) => {
            return Err(error);
        },
        Ok(pubkey) => pubkey,
    };
    match validate_decimals(request.decimals) {
        Err(error) => {
            return Err(error);
        },
        Ok(_) => {},
    }

    let token_program = token_program_id();

    let mut accounts: Vec<AccountMeta> = Vec::new();
    accounts.push(AccountMeta::new(mint, true));
    accounts.push(AccountMeta::new_readonly(mint_authority, true));
    accounts.push(AccountMeta::new_readonly(system_program_id(), false));

    let signers: Vec<[u8; 32]> = Vec::new();
    let data = match mint_to_data(&mint, &mint, &mint_authority, signers.as_slice(), MINT_AMOUNT) {
        Err(error) => {
            // The builder fails only for a foreign program id, which it is
            // never given; should it fail all the same, its error is reported.
            let text = String::from_str("Failed to create mint instruction: ").concat(
                error.to_string().as_str(),
            );
            return Err(ErrorResponse::new(text.as_str()));
        },
        Ok(data) => data,
    };

    let response = MintTokenResponse {
        program_id: encode_base58(token_program.as_slice()),
        accounts: describe_accounts(&accounts),
        instruction_data: encode_base64(data.as_slice()),
    };
    assert(response@.accounts =~= mint_token_instruction(mint_authority@, mint@).accounts);
    Ok(SuccessResponse::new(response))
}

/// Builds the instruction that transfers the request's amount of the mint
/// from the owner's associated token account to the destination's.
///
/// Both token accounts are written, the owner signs, and the mint and the
/// token program are listed read-only. Refuses a request with an empty field,
/// an address that is not Base58 for 32 bytes (destination, mint, owner, in
/// that order), an amount of zero, and a transfer from a wallet to itself.
pub fn send_token(request: SendTokenRequest) -> (result: Result<
    SuccessResponse<SendTokenResponse>,
    ErrorResponse,
>)
    ensures
        well_formed(result),
        outcome(result) == send_token_spec(request),
{
    if request.destination.as_str().is_empty() || request.mint.as_str().is_empty()
        || request.owner.as_str().is_empty() {
        return Err(ErrorResponse::new("Missing required fields"));
    }
    let destination = match validate_pubkey(request.destination.as_str(), "destination address") {
        Err(error) => {
            return Err(error);
        },
        Ok(pubkey) => pubkey,
    };
    let mint = match validate_pubkey(request.mint.as_str(), "mint address") {
        Err(error) => {
            return Err(error);
        },
        Ok(pubkey) => pubkey,
    };
    let owner = match validate_pubkey(request.owner.as_str(), "owner address") {
        Err(error) => {
            return Err(error);
        },
        Ok(pubkey) => pubkey,
    };
    match validate_amount(request.amount) {
        Err(error) => {
            return Err(error);
        },
        Ok(_) => {},
    }
    if same_address(&owner, &destination) {
        return Err(ErrorResponse::new("Owner and destination addresses cannot be the same"));
    }

    let token_program = token_program_id();
    let owner_ata = derive_associated_token_address(&owner, &mint);
    let destination_ata = derive_associated_token_address(&destination, &mint);

    let mut accounts: Vec<AccountMeta> = Vec::new();
    accounts.push(AccountMeta::new(owner_ata, false));
    accounts.push(AccountMeta::new(destination_ata, false));
    accounts.push(AccountMeta::new_readonly(owner, true));
    accounts.push(AccountMeta::new_readonly(mint, false));
    accounts.push(AccountMeta::new_readonly(token_program, false));

    let signers: Vec<[u8; 32]> = Vec::new();
    let data = match transfer_checked_data(
        &owner_ata,
        &mint,
        &destination_ata,
        &owner,
        signers.as_slice(),
        request.amount,
        TRANSFER_DECIMALS,
    ) {
        Err(error) => {
            // The builder fails only for a foreign program id, which it is
            // never given; should it fail all the same, its error is reported.
            let text = String::from_str("Failed to create transfer instruction: ").concat(
                error.to_string().as_str(),
            );
            return Err(ErrorResponse::new(text.as_str()));
        },
        Ok(data) => data,
    };

    let response = SendTokenResponse {
        program_id: encode_base58(token_program.as_slice()),
        accounts: describe_accounts(&accounts),
        instruction_data: encode_base64(data.as_slice()),
    };
    assert(response@.accounts =~= send_token_instruction(
        destination@,
        mint@,
        owner@,
        request.amount,
    ).accounts);
    Ok(SuccessResponse::new(response))
}

} // verus!
