use x402_watch::amount::{amount_from_decimal, amount_to_decimal, TokenAmount};
use x402_watch::encoding::{header_is_text, prefixed_hex};
use x402_watch::wallet::{
    encode_payment_payload, payment_id_bytes, payment_payload, wallet_from_private_key,
    BalanceReading, PaymentRequirements, ResourceInfo, WalletManager,
};

fn amount(n: u64) -> TokenAmount {
    TokenAmount { limbs: [n, 0, 0, 0] }
}

fn requirement(amount: &str, timeout: u64) -> PaymentRequirements {
    PaymentRequirements {
        scheme: "exact".to_string(),
        network: "base-sepolia".to_string(),
        amount: amount.to_string(),
        asset: "0x036CbD53842c5426634e7929541eC2318f3dCF7e".to_string(),
        pay_to: "0x209693Bc6afc0C5328bA36FaF03C514EF312287C".to_string(),
        max_timeout_seconds: timeout,
        extra: Some("{\"name\":\"USDC\"}".to_string()),
    }
}

#[test]
fn amounts_read_and_write_in_decimal() {
    let a = amount_from_decimal("1000").unwrap();
    assert_eq!(a.limbs, [1000, 0, 0, 0]);
    assert_eq!(amount_to_decimal(&a), "1000");
    assert_eq!(amount_from_decimal("").unwrap().limbs, [0, 0, 0, 0]);
    assert!(amount_from_decimal("12a").is_none());
    assert!(amount_from_decimal("-1").is_none());
    assert!(amount_from_decimal("1.5").is_none());
    let big = TokenAmount { limbs: [0, 0, 0, 1] };
    let text = amount_to_decimal(&big);
    assert_eq!(text, "6277101735386680763835789423207666416102355444464034512896");
    assert_eq!(amount_from_decimal(&text).unwrap().limbs, [0, 0, 0, 1]);
    let max = TokenAmount { limbs: [u64::MAX; 4] };
    let max_text = amount_to_decimal(&max);
    assert_eq!(amount_from_decimal(&max_text).unwrap().limbs, [u64::MAX; 4]);
    assert!(amount_from_decimal(
        "115792089237316195423570985008687907853269984665640564039457584007913129639936"
    )
    .is_none());
}

#[test]
fn amounts_compare_by_value() {
    let small = TokenAmount { limbs: [u64::MAX, 0, 0, 0] };
    let large = TokenAmount { limbs: [0, 1, 0, 0] };
    assert!(large.at_least(&small));
    assert!(!small.at_least(&large));
    assert!(small.at_least(&small));
    assert!(TokenAmount::zero().is_zero());
    assert!(!large.is_zero());
}

#[test]
fn funds_are_sufficient_up_to_the_balance() {
    let mut wm = WalletManager::new([0x11; 20]);
    assert!(!wm.has_sufficient_funds("1"));
    assert!(wm.has_sufficient_funds("0"));
    assert!(wm.has_sufficient_funds(""));
    assert!(wm.record_balance(BalanceReading::Eth(amount(0))));
    assert!(!wm.record_balance(BalanceReading::Usdc(amount(10000))));
    assert_eq!(wm.get_usdc_balance().limbs, [10000, 0, 0, 0]);
    assert_eq!(wm.get_eth_balance().limbs, [0, 0, 0, 0]);
    assert!(wm.has_sufficient_funds("10000"));
    assert!(wm.has_sufficient_funds("9999"));
    assert!(!wm.has_sufficient_funds("10001"));
    assert!(!wm.has_sufficient_funds("ten"));
    assert!(!wm.has_sufficient_funds("1e3"));
}

#[test]
fn authorization_of_a_payment() {
    let wm = WalletManager::new([0xab; 20]);
    assert_eq!(wm.address(), [0xab; 20]);
    let req = requirement("10000", 60);
    let nonce = [0x0f; 32];
    let auth = wm.payment_authorization(&req, 1_700_000_000, &nonce);
    assert_eq!(auth.from, format!("0x{}", "ab".repeat(20)));
    assert_eq!(auth.to, req.pay_to);
    assert_eq!(auth.value, "10000");
    assert_eq!(auth.valid_after, "1700000000");
    assert_eq!(auth.valid_before, "1700000060");
    assert_eq!(auth.nonce, format!("0x{}", "0f".repeat(32)));
}

#[test]
fn payload_of_a_signed_payment() {
    let wm = WalletManager::new([0x01; 20]);
    let req = requirement("5", 30);
    let auth = wm.payment_authorization(&req, 100, &[0; 32]);
    let resource = ResourceInfo {
        url: "https://api.example.com/data".to_string(),
        description: None,
        mime_type: Some("application/json".to_string()),
    };
    let mut sig = [0u8; 65];
    sig[0] = 0xde;
    sig[64] = 0x1b;
    let p = payment_payload(&req, Some(resource.clone()), auth.clone(), &sig);
    assert_eq!(p.x402_version, 2);
    assert_eq!(p.extensions, "{}");
    assert_eq!(p.accepted.amount, "5");
    assert_eq!(p.payload.authorization.valid_before, "130");
    assert_eq!(p.resource.unwrap().url, resource.url);
    let expected_sig = format!("0xde{}1b", "00".repeat(63));
    assert_eq!(p.payload.signature, expected_sig);
}

#[test]
fn payload_header_is_base64_of_the_json() {
    assert_eq!(encode_payment_payload("hello"), "aGVsbG8=");
    assert_eq!(encode_payment_payload("hell"), "aGVsbA==");
    assert_eq!(encode_payment_payload("hel"), "aGVs");
    assert_eq!(encode_payment_payload(""), "");
    assert_eq!(encode_payment_payload("{\"a\":1}"), "eyJhIjoxfQ==");
}

#[test]
fn payment_ids_are_cut_and_padded_to_32_bytes() {
    let id = payment_id_bytes("v2-nonce-tbd");
    assert_eq!(&id[..12], b"v2-nonce-tbd");
    assert!(id[12..].iter().all(|b| *b == 0));
    let long = "x".repeat(40);
    assert_eq!(payment_id_bytes(&long), [b'x'; 32]);
    assert_eq!(payment_id_bytes(""), [0; 32]);
}

#[test]
fn hex_and_header_text() {
    assert_eq!(prefixed_hex(&[0x00, 0xff, 0x10]), "0x00ff10");
    assert_eq!(prefixed_hex(&[]), "0x");
    assert!(header_is_text(b"eyJ4NDAyVmVyc2lvbiI6Mn0="));
    assert!(header_is_text(b"a\tb ~"));
    assert!(!header_is_text(b"a\nb"));
    assert!(!header_is_text(&[0x7f]));
    assert!(!header_is_text(&[0xc3, 0xa9]));
}

#[test]
fn balances_are_the_last_read() {
    let mut wm = WalletManager::new([0x33; 20]);
    assert!(wm.get_usdc_balance().is_zero());
    wm.record_balance(BalanceReading::Usdc(amount(7)));
    wm.record_balance(BalanceReading::Eth(amount(5)));
    assert_eq!(wm.get_usdc_balance().limbs, [7, 0, 0, 0]);
    wm.record_balance(BalanceReading::Usdc(amount(9)));
    assert_eq!(wm.get_usdc_balance().limbs, [9, 0, 0, 0]);
    assert_eq!(wm.get_eth_balance().limbs, [5, 0, 0, 0]);
    assert_eq!(wm.address(), [0x33; 20]);
}

#[test]
fn wallets_from_private_keys() {
    assert!(wallet_from_private_key("not-a-key").is_none());
    assert!(wallet_from_private_key("").is_none());
    assert!(wallet_from_private_key("00").is_none());
    let key = format!("{}1", "0".repeat(63));
    let wm = wallet_from_private_key(&key).unwrap();
    assert_eq!(prefixed_hex(&wm.address()), "0x7e5f4552091a69125d5dfcb7b8c2659029395bdf");
    assert!(wm.get_usdc_balance().is_zero());
    assert!(wm.get_eth_balance().is_zero());
    // The zero key is not a valid secp256k1 key.
    assert!(wallet_from_private_key(&"0".repeat(64)).is_none());
}
