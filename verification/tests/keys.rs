use solana_toolbox::instruction::{describe_accounts, AccountMeta};
use solana_toolbox::keys::{generate_signing_key, same_address, validate_pubkey, SigningKey};

const USDC: &str = "EPjFWdd5AufqSSqeM2qN1xzybapC8G4wEGGkZwyTDt1v";
const USDC_HEX: &str = "c6fa7af3bedbad3a3d65f36aabc97431b1bbe4c2d2f6e0e47ca60203452f5d61";
const RFC_SECRET_HEX: &str = "4ccd089b28ff96da9db6c346ec114e0f5b8a319f35aba624da8cf6ed4fb8a6fb";
const RFC_PUBLIC_HEX: &str = "3d4017c3e843895a92b70aa74d1b7ebc9c982ccf2ec4968cc0cd55f12af4660c";
const RFC_SIGNATURE_HEX: &str = "92a009a9f0d4cab8720e820b5f642540a2b27b5416503f8fb3762223ebdb69da085ac1e43e15996e458f3613d0f11d8c387b2eaeb4302aeeb00d291612bb0c00";

fn unhex(text: &str) -> Vec<u8> {
    let digits: Vec<u32> = text.chars().map(|c| c.to_digit(16).expect("hex digit")).collect();
    digits.chunks(2).map(|pair| (pair[0] * 16 + pair[1]) as u8).collect()
}

fn rfc_keypair() -> Vec<u8> {
    let mut bytes = unhex(RFC_SECRET_HEX);
    bytes.extend(unhex(RFC_PUBLIC_HEX));
    bytes
}

#[test]
fn same_address_tells_equal_from_different() {
    let zero = [0u8; 32];
    let mut last = [0u8; 32];
    last[31] = 1;
    let mut first = [0u8; 32];
    first[0] = 1;
    assert!(same_address(&zero, &[0u8; 32]));
    assert!(!same_address(&zero, &last));
    assert!(!same_address(&zero, &first));
    assert!(same_address(&last, &last));
}

#[test]
fn validate_pubkey_decodes_an_address() {
    match validate_pubkey(USDC, "mint") {
        Ok(bytes) => assert_eq!(bytes.to_vec(), unhex(USDC_HEX)),
        Err(error) => panic!("refused: {}", error.error),
    }
}

#[test]
fn validate_pubkey_decodes_the_all_zero_address() {
    match validate_pubkey("11111111111111111111111111111111", "to") {
        Ok(bytes) => assert_eq!(bytes, [0u8; 32]),
        Err(error) => panic!("refused: {}", error.error),
    }
}

#[test]
fn validate_pubkey_names_the_field_of_malformed_text() {
    match validate_pubkey("not-base58!", "sender address") {
        Ok(_) => panic!("accepted"),
        Err(error) => {
            assert!(!error.success);
            assert_eq!(error.error, "Invalid base58 encoding for sender address");
        }
    }
    // 0, O, I and l are not in the alphabet
    match validate_pubkey("0OIl", "mint") {
        Ok(_) => panic!("accepted"),
        Err(error) => assert_eq!(error.error, "Invalid base58 encoding for mint"),
    }
}

#[test]
fn validate_pubkey_names_the_field_of_a_wrong_length() {
    // 31 and 33 zero bytes, and the empty text
    for text in [
        "1111111111111111111111111111111",
        "111111111111111111111111111111111",
        "4GjjZ7fPkpiqN",
        "",
    ] {
        match validate_pubkey(text, "owner address") {
            Ok(_) => panic!("accepted {}", text),
            Err(error) => {
                assert!(!error.success);
                assert_eq!(error.error, "Invalid public key format for owner address");
            }
        }
    }
}

#[test]
fn signing_key_accepts_a_matching_pair() {
    let key = SigningKey::from_bytes(rfc_keypair()).expect("a keypair");
    assert_eq!(key.to_bytes(), &rfc_keypair());
    assert_eq!(key.pubkey().to_vec(), unhex(RFC_PUBLIC_HEX));
}

#[test]
fn signing_key_refuses_what_is_no_keypair() {
    assert!(SigningKey::from_bytes(Vec::new()).is_none());
    assert!(SigningKey::from_bytes(unhex(RFC_SECRET_HEX)).is_none());
    let mut long = rfc_keypair();
    long.push(0);
    assert!(SigningKey::from_bytes(long).is_none());
    // the public half of another secret
    let mut mismatched = unhex(RFC_SECRET_HEX);
    mismatched.extend(unhex("d75a980182b10ab7d54bfed3c964073a0ee172f3daa62325af021a68f707511a"));
    assert!(SigningKey::from_bytes(mismatched).is_none());
}

#[test]
fn signing_key_signs_as_the_standard_says() {
    let key = SigningKey::from_bytes(rfc_keypair()).expect("a keypair");
    assert_eq!(key.sign_message(b"r").to_vec(), unhex(RFC_SIGNATURE_HEX));
    assert_ne!(key.sign_message(b"s").to_vec(), unhex(RFC_SIGNATURE_HEX));
}

#[test]
fn signing_is_deterministic() {
    let key = SigningKey::from_bytes(rfc_keypair()).expect("a keypair");
    assert_eq!(key.sign_message(b"twice"), key.sign_message(b"twice"));
}

#[test]
fn generated_keys_are_keypairs_and_differ() {
    let one = generate_signing_key();
    let two = generate_signing_key();
    assert_eq!(one.to_bytes().len(), 64);
    assert_eq!(one.pubkey().to_vec(), one.to_bytes()[32..].to_vec());
    assert_ne!(one.to_bytes(), two.to_bytes());
    assert!(SigningKey::from_bytes(one.to_bytes().clone()).is_some());
    let checked = solana_sdk::signature::Keypair::from_bytes(one.to_bytes());
    assert!(checked.is_ok());
}

#[test]
fn account_meta_constructors_set_the_flags() {
    let key = [7u8; 32];
    let writable = AccountMeta::new(key, true);
    assert_eq!(writable.pubkey, key);
    assert!(writable.is_signer);
    assert!(writable.is_writable);
    let readonly = AccountMeta::new_readonly(key, false);
    assert_eq!(readonly.pubkey, key);
    assert!(!readonly.is_signer);
    assert!(!readonly.is_writable);
}

#[test]
fn describe_writes_the_address_in_base58() {
    let mut key = [0u8; 32];
    key.copy_from_slice(&unhex(USDC_HEX));
    let info = AccountMeta::new_readonly(key, true).describe();
    assert_eq!(info.pubkey, USDC);
    assert!(info.is_signer);
    assert!(!info.is_writable);
}

#[test]
fn describe_accounts_keeps_order_and_flags() {
    let mut usdc = [0u8; 32];
    usdc.copy_from_slice(&unhex(USDC_HEX));
    let metas = vec![
        AccountMeta::new([0u8; 32], false),
        AccountMeta::new_readonly(usdc, true),
        AccountMeta::new(usdc, true),
    ];
    let infos = describe_accounts(&metas);
    assert_eq!(infos.len(), 3);
    assert_eq!(infos[0].pubkey, "11111111111111111111111111111111");
    assert_eq!((infos[0].is_signer, infos[0].is_writable), (false, true));
    assert_eq!(infos[1].pubkey, USDC);
    assert_eq!((infos[1].is_signer, infos[1].is_writable), (true, false));
    assert_eq!(infos[2].pubkey, USDC);
    assert_eq!((infos[2].is_signer, infos[2].is_writable), (true, true));
    assert!(describe_accounts(&Vec::new()).is_empty());
}
