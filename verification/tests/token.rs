use solana_toolbox::response_types::{ErrorResponse, SuccessResponse};
use solana_toolbox::token::{
    create_token, mint_token, send_token, validate_amount, validate_decimals, AccountInfo,
    CreateTokenRequest, MintTokenRequest, SendTokenRequest, MAX_DECIMALS, MINT_AMOUNT,
    TRANSFER_DECIMALS,
};

const TOKEN_PROGRAM: &str = "TokenkegQfeZyiNwAJbNbGKPFXCWuBvf9Ss623VQ5DA";
const SYSTEM_PROGRAM: &str = "11111111111111111111111111111111";
const RENT_SYSVAR: &str = "SysvarRent111111111111111111111111111111111";
const USDC: &str = "EPjFWdd5AufqSSqeM2qN1xzybapC8G4wEGGkZwyTDt1v";
const WRAPPED_SOL: &str = "So11111111111111111111111111111111111111112";
const WALLET: &str = "586Z7H2vpX9qNhN2T4e9Utugie3ogjbxzGaMtM3E6HR5";

fn refusal<T>(answer: Result<SuccessResponse<T>, ErrorResponse>) -> String {
    match answer {
        Ok(_) => panic!("the request was accepted"),
        Err(error) => {
            assert!(!error.success);
            error.error
        }
    }
}

fn payload<T>(answer: Result<SuccessResponse<T>, ErrorResponse>) -> T {
    match answer {
        Ok(response) => {
            assert!(response.success);
            response.data
        }
        Err(error) => panic!("the request was refused: {}", error.error),
    }
}

fn listed(accounts: &[AccountInfo]) -> Vec<(String, bool, bool)> {
    accounts.iter().map(|a| (a.pubkey.clone(), a.is_signer, a.is_writable)).collect()
}

fn create(mint_authority: &str, mint: &str, decimals: u8) -> CreateTokenRequest {
    CreateTokenRequest {
        mint_authority: mint_authority.to_string(),
        mint: mint.to_string(),
        decimals,
    }
}

fn mint(mint_authority: &str, mint: &str, decimals: u8) -> MintTokenRequest {
    MintTokenRequest { mint_authority: mint_authority.to_string(), mint: mint.to_string(), decimals }
}

fn send(destination: &str, mint: &str, owner: &str, amount: u64) -> SendTokenRequest {
    SendTokenRequest {
        destination: destination.to_string(),
        mint: mint.to_string(),
        owner: owner.to_string(),
        amount,
    }
}

fn associated(wallet: &str, mint: &str) -> String {
    let wallet: solana_sdk::pubkey::Pubkey = wallet.parse().expect("an address");
    let mint: solana_sdk::pubkey::Pubkey = mint.parse().expect("an address");
    spl_associated_token_account::get_associated_token_address(&wallet, &mint).to_string()
}

#[test]
fn the_constants_are_as_documented() {
    assert_eq!(MAX_DECIMALS, 9);
    assert_eq!(MINT_AMOUNT, 1_000_000_000);
    assert_eq!(TRANSFER_DECIMALS, 9);
}

#[test]
fn validate_decimals_allows_zero_to_nine() {
    for decimals in 0..=9u8 {
        assert!(validate_decimals(decimals).is_ok());
    }
    for decimals in [10u8, 11, 100, 255] {
        match validate_decimals(decimals) {
            Ok(()) => panic!("accepted {}", decimals),
            Err(error) => {
                assert!(!error.success);
                assert_eq!(error.error, "Decimals must be between 0 and 9");
            }
        }
    }
}

#[test]
fn validate_amount_refuses_only_zero() {
    match validate_amount(0) {
        Ok(()) => panic!("accepted"),
        Err(error) => {
            assert!(!error.success);
            assert_eq!(error.error, "Amount must be greater than 0");
        }
    }
    assert!(validate_amount(1).is_ok());
    assert!(validate_amount(u64::MAX).is_ok());
}

#[test]
fn create_token_builds_initialize_mint() {
    let response = payload(create_token(create(WRAPPED_SOL, USDC, 6)));
    assert_eq!(response.program_id, TOKEN_PROGRAM);
    assert_eq!(
        listed(&response.accounts),
        vec![
            (USDC.to_string(), true, true),
            (WRAPPED_SOL.to_string(), true, false),
            (RENT_SYSVAR.to_string(), false, false),
            (SYSTEM_PROGRAM.to_string(), false, false),
        ]
    );
    assert_eq!(response.instruction_data, "AAYGm4hX/quBhPtof2NGGMA12sQ53BrrO1WYoPAAAAAAAQA=");
}

#[test]
fn create_token_takes_the_edges_of_decimals() {
    let nine = payload(create_token(create(USDC, WRAPPED_SOL, 9)));
    assert_eq!(nine.instruction_data, "AAnG+nrzvtutOj1l82qryXQxsbvkwtL24OR8pgIDRS9dYQA=");
    let zero = payload(create_token(create(USDC, USDC, 0)));
    assert_eq!(zero.instruction_data, "AADG+nrzvtutOj1l82qryXQxsbvkwtL24OR8pgIDRS9dYQA=");
    assert_eq!(zero.accounts[0].pubkey, USDC);
    assert_eq!(zero.accounts[1].pubkey, USDC);
}

#[test]
fn create_token_refuses_decimals_out_of_range() {
    assert_eq!(
        refusal(create_token(create(WRAPPED_SOL, USDC, 10))),
        "Decimals must be between 0 and 9"
    );
    assert_eq!(
        refusal(create_token(create(WRAPPED_SOL, USDC, 255))),
        "Decimals must be between 0 and 9"
    );
}

#[test]
fn create_token_refuses_malformed_addresses() {
    assert_eq!(
        refusal(create_token(create("not base58", USDC, 6))),
        "Invalid base58 encoding for mint_authority"
    );
    assert_eq!(
        refusal(create_token(create("", USDC, 6))),
        "Invalid public key format for mint_authority"
    );
    assert_eq!(
        refusal(create_token(create(WRAPPED_SOL, "0", 6))),
        "Invalid base58 encoding for mint"
    );
    assert_eq!(
        refusal(create_token(create(WRAPPED_SOL, "abc", 6))),
        "Invalid public key format for mint"
    );
    // the authority is looked at first, the decimals last
    assert_eq!(
        refusal(create_token(create("0", "0", 77))),
        "Invalid base58 encoding for mint_authority"
    );
    assert_eq!(
        refusal(create_token(create(WRAPPED_SOL, "0", 77))),
        "Invalid base58 encoding for mint"
    );
}

#[test]
fn mint_token_builds_mint_to() {
    let response = payload(mint_token(mint(WRAPPED_SOL, USDC, 6)));
    assert_eq!(response.program_id, TOKEN_PROGRAM);
    assert_eq!(
        listed(&response.accounts),
        vec![
            (USDC.to_string(), true, true),
            (WRAPPED_SOL.to_string(), true, false),
            (SYSTEM_PROGRAM.to_string(), false, false),
        ]
    );
    assert_eq!(response.instruction_data, "BwDKmjsAAAAA");
    // the decimals do not change the amount
    assert_eq!(payload(mint_token(mint(USDC, USDC, 0))).instruction_data, "BwDKmjsAAAAA");
    assert_eq!(payload(mint_token(mint(USDC, USDC, 9))).instruction_data, "BwDKmjsAAAAA");
}

#[test]
fn mint_token_refuses_invalid_requests() {
    assert_eq!(
        refusal(mint_token(mint("not base58", USDC, 6))),
        "Invalid base58 encoding for mintAuthority"
    );
    assert_eq!(
        refusal(mint_token(mint("abc", USDC, 6))),
        "Invalid public key format for mintAuthority"
    );
    assert_eq!(refusal(mint_token(mint(USDC, "I", 6))), "Invalid base58 encoding for mint");
    assert_eq!(refusal(mint_token(mint(USDC, "", 6))), "Invalid public key format for mint");
    assert_eq!(refusal(mint_token(mint(USDC, USDC, 10))), "Decimals must be between 0 and 9");
}

#[test]
fn send_token_builds_transfer_checked() {
    let response = payload(send_token(send(WRAPPED_SOL, USDC, WALLET, 1_000_000)));
    assert_eq!(response.program_id, TOKEN_PROGRAM);
    let owner_account = associated(WALLET, USDC);
    let destination_account = associated(WRAPPED_SOL, USDC);
    assert_ne!(owner_account, destination_account);
    assert_ne!(owner_account, WALLET);
    assert_eq!(
        listed(&response.accounts),
        vec![
            (owner_account, false, true),
            (destination_account, false, true),
            (WALLET.to_string(), true, false),
            (USDC.to_string(), false, false),
            (TOKEN_PROGRAM.to_string(), false, false),
        ]
    );
    assert_eq!(response.instruction_data, "DEBCDwAAAAAACQ==");
}

#[test]
fn send_token_writes_the_amount_little_endian() {
    assert_eq!(
        payload(send_token(send(WRAPPED_SOL, USDC, WALLET, 1))).instruction_data,
        "DAEAAAAAAAAACQ=="
    );
    assert_eq!(
        payload(send_token(send(WRAPPED_SOL, USDC, WALLET, 258))).instruction_data,
        "DAIBAAAAAAAACQ=="
    );
    assert_eq!(
        payload(send_token(send(WRAPPED_SOL, USDC, WALLET, u64::MAX))).instruction_data,
        "DP//////////CQ=="
    );
}

#[test]
fn send_token_refuses_missing_fields() {
    assert_eq!(refusal(send_token(send("", USDC, WALLET, 5))), "Missing required fields");
    assert_eq!(refusal(send_token(send(WRAPPED_SOL, "", WALLET, 5))), "Missing required fields");
    assert_eq!(refusal(send_token(send(WRAPPED_SOL, USDC, "", 5))), "Missing required fields");
    assert_eq!(refusal(send_token(send("", "", "", 0))), "Missing required fields");
}

#[test]
fn send_token_refuses_malformed_addresses() {
    assert_eq!(
        refusal(send_token(send("l", USDC, WALLET, 5))),
        "Invalid base58 encoding for destination address"
    );
    assert_eq!(
        refusal(send_token(send("abc", USDC, WALLET, 5))),
        "Invalid public key format for destination address"
    );
    assert_eq!(
        refusal(send_token(send(WRAPPED_SOL, "O", WALLET, 5))),
        "Invalid base58 encoding for mint address"
    );
    assert_eq!(
        refusal(send_token(send(WRAPPED_SOL, "abc", WALLET, 5))),
        "Invalid public key format for mint address"
    );
    assert_eq!(
        refusal(send_token(send(WRAPPED_SOL, USDC, "0", 5))),
        "Invalid base58 encoding for owner address"
    );
    assert_eq!(
        refusal(send_token(send(WRAPPED_SOL, USDC, "abc", 5))),
        "Invalid public key format for owner address"
    );
    // destination first, then mint, then owner
    assert_eq!(
        refusal(send_token(send("0", "0", "0", 0))),
        "Invalid base58 encoding for destination address"
    );
}

#[test]
fn send_token_refuses_an_amount_of_zero() {
    assert_eq!(
        refusal(send_token(send(WRAPPED_SOL, USDC, WALLET, 0))),
        "Amount must be greater than 0"
    );
    // the amount is looked at before the two wallets are compared
    assert_eq!(refusal(send_token(send(WALLET, USDC, WALLET, 0))), "Amount must be greater than 0");
}

#[test]
fn send_token_refuses_a_transfer_to_oneself() {
    assert_eq!(
        refusal(send_token(send(WALLET, USDC, WALLET, 5))),
        "Owner and destination addresses cannot be the same"
    );
    assert_eq!(
        refusal(send_token(send(USDC, USDC, USDC, u64::MAX))),
        "Owner and destination addresses cannot be the same"
    );
}
