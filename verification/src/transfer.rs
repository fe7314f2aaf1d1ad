//! Instructions for the System program: transferring lamports between two
//! wallets.

pub use crate::instruction::AccountInfo;

use crate::encoding::{base58_decode, base64_encode, encode_base58, encode_base64};
use crate::instruction::{
    account_views, describe_accounts, system_program_address, system_program_id,
    system_transfer_bytes, system_transfer_data, writable, AccountMeta, InstructionView,
};
use crate::keys::{is_pubkey_text, parse_pubkey, same_address, validate_pubkey};
use crate::response_types::{outcome, well_formed, ErrorResponse, SuccessResponse};
use vstd::prelude::*;

verus! {

/// Most lamports one transfer may move: the whole supply, some 500 million
/// SOL of a billion lamports each.
pub const MAX_REASONABLE_LAMPORTS: u64 = 500_000_000_000_000_000;

/// A transfer of lamports: the two wallets in Base58, and the amount.
pub struct SendSolRequest {
    pub from: String,
    pub to: String,
    pub lamports: u64,
}

/// The instruction that transfers lamports.
pub struct SendSolResponse {
    pub program_id: String,
    pub accounts: Vec<AccountInfo>,
    pub instruction_data: String,
}

impl View for SendSolResponse {
    type V = InstructionView;

    open spec fn view(&self) -> InstructionView {
        InstructionView {
            program_id: self.program_id@,
            accounts: account_views(self.accounts@),
            instruction_data: self.instruction_data@,
        }
    }
}

/// Why `lamports` is refused as an amount to transfer, if it is.
pub open spec fn lamports_error(lamports: u64) -> Option<Seq<char>> {
    if lamports == 0 {
        Some("Amount must be greater than 0 lamports"@)
    } else if lamports > MAX_REASONABLE_LAMPORTS {
        Some("Amount exceeds maximum reasonable transfer"@)
    } else {
        None
    }
}

/// The instruction by which `from` sends `lamports` to `to`.
pub open spec fn send_sol_instruction(from: Seq<u8>, to: Seq<u8>, lamports: u64) -> InstructionView {
    InstructionView {
        program_id: system_program_address(),
        accounts: seq![writable(from, true), writable(to, false)],
        instruction_data: base64_encode(system_transfer_bytes(lamports)),
    }
}

/// What `send_sol` answers: the first failed check, or the instruction.
pub open spec fn send_sol_spec(request: SendSolRequest) -> Result<InstructionView, Seq<char>> {
    if request.from@.len() == 0 || request.to@.len() == 0 {
        Err("Missing required fields"@)
    } else {
        match parse_pubkey(request.from@, "sender address"@) {
            Err(text) => Err(text),
            Ok(from) => match parse_pubkey(request.to@, "recipient address"@) {
                Err(text) => Err(text),
                Ok(to) => match lamports_error(request.lamports) {
                    Some(text) => Err(text),
                    None => if from == to {
                        Err("Sender and recipient addresses cannot be the same"@)
                    } else {
                        Ok(send_sol_instruction(from, to, request.lamports))
                    },
                },
            },
        }
    }
}

/// `send_sol` succeeds exactly when no address is empty, both are Base58 for
/// 32 bytes, the amount lies between one lamport and
/// `MAX_REASONABLE_LAMPORTS`, and sender and recipient decode to different
/// addresses: a malformed address, an amount out of range and a transfer to
/// oneself are each refused.
pub proof fn lemma_send_sol_succeeds_iff_valid(request: SendSolRequest)
    ensures
        send_sol_spec(request) is Ok <==> {
            &&& request.from@.len() > 0
            &&& request.to@.len() > 0
            &&& is_pubkey_text(request.from@)
            &&& is_pubkey_text(request.to@)
            &&& 0 < request.lamports <= MAX_REASONABLE_LAMPORTS
            &&& base58_decode(request.from@) != base58_decode(request.to@)
        },
{
}

/// A transfer whose sender and recipient are the same text is refused.
pub proof fn lemma_send_sol_rejects_self_transfer(request: SendSolRequest)
    requires
        request.from@ == request.to@,
    ensures
        send_sol_spec(request) is Err,
{
}

/// Refuses an amount of zero and one above `MAX_REASONABLE_LAMPORTS`.
pub fn validate_lamports(lamports: u64) -> (result: Result<(), ErrorResponse>)
    ensures
        result is Ok <==> lamports_error(lamports) is None,
        result matches Err(error) ==> error.says(lamports_error(lamports).unwrap()),
{
    if lamports == 0 {
        return Err(ErrorResponse::new("Amount must be greater than 0 lamports"));
    }
    if lamports > MAX_REASONABLE_LAMPORTS {
        return Err(ErrorResponse::new("Amount exceeds maximum reasonable transfer"));
    }
    Ok(())
}

/// Builds the instruction that transfers the request's lamports from one
/// wallet to the other.
///
/// The sender signs and is written, the recipient is written. Refuses a
/// request with an empty address, an address that is not Base58 for 32 bytes
/// (the sender's first), an amount of zero or above
/// `MAX_REASONABLE_LAMPORTS`, and a transfer from a wallet to itself.
pub fn send_sol(request: SendSolRequest) -> (result: Result<
    SuccessResponse<SendSolResponse>,
    ErrorResponse,
>)
    ensures
        well_formed(result),
        outcome(result) == send_sol_spec(request),
{
    if request.from.as_str().is_empty() || request.to.as_str().is_empty() {
        return Err(ErrorResponse::new("Missing required fields"));
    }
    let from_pubkey = match validate_pubkey(request.from.as_str(), "sender address") {
        Err(error) => {
            return Err(error);
        },
        Ok(pubkey) => pubkey,
    };
    let to_pubkey = match validate_pubkey(request.to.as_str(), "recipient address") {
        Err(error) => {
            return Err(error);
        },
        Ok(pubkey) => pubkey,
    };
    match validate_lamports(request.lamports) {
        Err(error) => {
            return Err(error);
        },
        Ok(_) => {},
    }
    if same_address(&from_pubkey, &to_pubkey) {
        return Err(ErrorResponse::new("Sender and recipient addresses cannot be the same"));
    }

    let data = system_transfer_data(&from_pubkey, &to_pubkey, request.lamports);

    let mut accounts: Vec<AccountMeta> = Vec::new();
    accounts.push(AccountMeta::new(from_pubkey, true));
    accounts.push(AccountMeta::new(to_pubkey, false));

    let response = SendSolResponse {
        program_id: encode_base58(system_program_id().as_slice()),
        accounts: describe_accounts(&accounts),
        instruction_data: encode_base64(data.as_slice()),
    };
    assert(response@.accounts =~= send_sol_instruction(
        from_pubkey@,
        to_pubkey@,
        request.lamports,
    ).accounts);
    Ok(SuccessResponse::new(response))
}

} // verus!
