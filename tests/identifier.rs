use token_api::caip::{split_account_text, CaipError, TokenId};
use token_api::evm::{decimal_text, is_address, normalize_address};
use token_api::token::{evm_token_id, SolanaTokenDetails};

const VITALIK: &str = "0x4b20993Bc481177ec7E8f571ceCaE8A9e22C02db";

#[test]
fn identifier_round_trip() {
    let id = TokenId::new("eip155", "1", VITALIK).unwrap();
    let text = id.to_string();
    assert_eq!(text, format!("eip155:1:{}", VITALIK));
    let back = TokenId::parse(&text).unwrap();
    assert!(back.same_as(&id));
    assert_eq!(back.namespace(), "eip155");
    assert_eq!(back.reference(), "1");
    assert_eq!(back.address(), VITALIK);
}

#[test]
fn identifier_round_trip_other_namespace() {
    let id = TokenId::new("cosmos", "cosmoshub-4", "abc-DEF-123").unwrap();
    let back = TokenId::parse(&id.to_string()).unwrap();
    assert!(back.same_as(&id));
}

#[test]
fn parse_rejects_malformed_text() {
    for bad in [
        "",
        "eip1551address",
        ":1:address",
        "eip155::address",
        "eip155:1:",
        "eip155:1",
        "EIP155:1:abc",
        "ei:1:abc",
        "eip155toolong:1:abc",
        "eip155:1:abc:def",
        "eip_155:1:abc",
    ] {
        assert!(matches!(TokenId::parse(bad), Err(CaipError::InvalidAccountId)), "{}", bad);
    }
    let long_address = format!("eip155:1:{}", "a".repeat(65));
    assert!(TokenId::parse(&long_address).is_err());
    let long_reference = format!("eip155:{}:abc", "1".repeat(33));
    assert!(TokenId::parse(&long_reference).is_err());
}

#[test]
fn build_reports_the_failing_part() {
    assert!(matches!(TokenId::new("", "1", VITALIK), Err(CaipError::InvalidNamespace)));
    assert!(matches!(TokenId::new("Eip155", "1", VITALIK), Err(CaipError::InvalidNamespace)));
    assert!(matches!(TokenId::new("eip155", "", VITALIK), Err(CaipError::InvalidReference)));
    assert!(matches!(TokenId::new("eip155", "a:b", VITALIK), Err(CaipError::InvalidReference)));
    assert!(matches!(TokenId::new("eip155", "1", "not an address"), Err(CaipError::InvalidAddress)));
}

#[test]
fn parse_applies_the_evm_address_validator() {
    assert!(matches!(TokenId::parse("eip155:1:abc"), Err(CaipError::InvalidAccountId)));
    assert!(TokenId::parse("cosmos:hub:abc").is_ok());
}

#[test]
fn build_applies_the_evm_address_validator() {
    // Grammatical, but not `0x` and forty hex digits: the eip155 validator refuses it.
    assert!(matches!(TokenId::new("eip155", "1", "not-an-address"), Err(CaipError::InvalidAddress)));
    assert!(TokenId::new("cosmos", "hub", "not-an-address").is_ok());
}

#[test]
fn normalize_address_checksums() {
    assert_eq!(
        normalize_address("0xa0b86991c6218b36c1d19d4a2e9eb0ce3606eb48").unwrap(),
        "0xA0b86991c6218b36c1d19D4a2e9Eb0cE3606eB48"
    );
    assert_eq!(
        normalize_address("d8da6bf26964af9d7eed9e03e53415d37aa96045").unwrap(),
        "0xd8dA6BF26964aF9D7eEd9e03E53415D37aA96045"
    );
    assert_eq!(
        normalize_address("0XD8DA6BF26964AF9D7EED9E03E53415D37AA96045").unwrap(),
        "0xd8dA6BF26964aF9D7eEd9e03E53415D37aA96045"
    );
}

#[test]
fn normalize_address_rejects_non_addresses() {
    assert!(normalize_address("not-an-address").is_none());
    assert!(normalize_address("0x1234").is_none());
    assert!(normalize_address("0xZZZZ993Bc481177ec7E8f571ceCaE8A9e22C02db").is_none());
    assert!(normalize_address("").is_none());
    assert!(!is_address("0x4b20993Bc481177ec7E8f571ceCaE8A9e22C02d"));
    assert!(is_address(VITALIK));
}

#[test]
fn decimal_text_of_chain_ids() {
    assert_eq!(decimal_text(0), "0");
    assert_eq!(decimal_text(1), "1");
    assert_eq!(decimal_text(137), "137");
    assert_eq!(decimal_text(u64::MAX), "18446744073709551615");
}

#[test]
fn evm_identifier_text() {
    let id = evm_token_id(137, VITALIK).unwrap();
    assert_eq!(id.to_string(), format!("eip155:137:{}", VITALIK));
    assert!(evm_token_id(1, "0x12").is_err());
    let largest = evm_token_id(u64::MAX, VITALIK).unwrap();
    assert_eq!(largest.reference(), "18446744073709551615");
}

#[test]
fn solana_details_keep_the_address() {
    let d = SolanaTokenDetails::new("So11111111111111111111111111111111111111112".to_string());
    assert_eq!(d.address(), "So11111111111111111111111111111111111111112");
}

#[test]
fn split_reads_the_grammar_only() {
    let id = split_account_text("eip155:1:abc").unwrap();
    assert_eq!(id.namespace(), "eip155");
    assert_eq!(id.reference(), "1");
    assert_eq!(id.address(), "abc");
    assert!(split_account_text("eip155:1").is_none());
    assert!(split_account_text("eip155:1:a:b").is_none());
    let built = TokenId::new("eip155", "137", VITALIK).unwrap();
    assert!(split_account_text(&built.to_string()).unwrap().same_as(&built));
}
