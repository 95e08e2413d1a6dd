use x402_watch::amount::TokenAmount;
use x402_watch::checker::{
    backoff, check_result, method_from_uppercase, parse_method, read_payment_required,
    report_line, CheckResult, CheckStatus, Checker, CycleAction, CycleEvent, CycleState,
    HttpMethod, HttpResponse, PaymentRequiredResponse, SubmissionResponse,
};
use x402_watch::error::CheckError;
use x402_watch::wallet::{BalanceReading, PaymentRequirements, ResourceInfo, WalletManager};

const REQUIREMENTS_JSON: &str = "{\"x402Version\":2,\"resource\":{\"url\":\"https://api.example.com/data\"},\"accepts\":[]}";

#[allow(deprecated)]
fn b64(s: &str) -> Vec<u8> {
    base64::encode(s).into_bytes()
}

fn requirement(amount: &str) -> PaymentRequirements {
    PaymentRequirements {
        scheme: "exact".to_string(),
        network: "base-sepolia".to_string(),
        amount: amount.to_string(),
        asset: "0x036CbD53842c5426634e7929541eC2318f3dCF7e".to_string(),
        pay_to: "0x209693Bc6afc0C5328bA36FaF03C514EF312287C".to_string(),
        max_timeout_seconds: 60,
        extra: None,
    }
}

fn response(version: u32, accepts: Vec<PaymentRequirements>) -> PaymentRequiredResponse {
    PaymentRequiredResponse {
        x402_version: version,
        error: None,
        resource: ResourceInfo {
            url: "https://api.example.com/data".to_string(),
            description: None,
            mime_type: None,
        },
        accepts,
        extensions: "null".to_string(),
    }
}

fn wallet_with(usdc: u64) -> WalletManager {
    let mut wm = WalletManager::new([0x22; 20]);
    wm.record_balance(BalanceReading::Eth(TokenAmount { limbs: [1, 0, 0, 0] }));
    wm.record_balance(BalanceReading::Usdc(TokenAmount { limbs: [usdc, 0, 0, 0] }));
    wm
}

fn finish(a: CycleAction) -> Result<bool, CheckError> {
    match a {
        CycleAction::Finish(r) => r,
        other => panic!("expected Finish, got {:?}", other),
    }
}

/// Runs a cycle up to the parsed requirements.
fn to_parse(checker: &Checker) -> CycleState {
    let (mut st, a) = checker.begin();
    assert!(matches!(a, CycleAction::SendRequest));
    let a = checker.advance(
        &mut st,
        CycleEvent::Responded(Ok(HttpResponse {
            status: 402,
            payment_required: Some(b64(REQUIREMENTS_JSON)),
        })),
    );
    match a {
        CycleAction::ParseRequirements(t) => assert_eq!(t, REQUIREMENTS_JSON),
        other => panic!("unexpected {:?}", other),
    }
    st
}

#[test]
fn methods() {
    assert_eq!(parse_method("POST"), HttpMethod::Post);
    assert_eq!(parse_method("post"), HttpMethod::Post);
    assert_eq!(parse_method("Post"), HttpMethod::Post);
    assert_eq!(parse_method("GET"), HttpMethod::Get);
    assert_eq!(parse_method("put"), HttpMethod::Get);
    assert_eq!(parse_method(""), HttpMethod::Get);
    assert_eq!(method_from_uppercase("POST"), HttpMethod::Post);
    assert_eq!(method_from_uppercase("post"), HttpMethod::Get);
    assert_eq!(method_from_uppercase("POST "), HttpMethod::Get);
}

#[test]
fn first_response_must_be_a_402_with_the_header() {
    assert_eq!(read_payment_required(200, None), Err(CheckError::UnexpectedStatusCode(200)));
    assert_eq!(read_payment_required(402, None), Err(CheckError::MissingHeader));
    assert_eq!(
        read_payment_required(402, Some(b"abc\n".to_vec())),
        Err(CheckError::InvalidHeaderChars)
    );
    assert!(matches!(
        read_payment_required(402, Some(b"aGVsbG8".to_vec())),
        Err(CheckError::InvalidBase64(_))
    ));
    assert!(matches!(
        read_payment_required(402, Some(b64("x").into_iter().chain(b"=".iter().copied()).collect())),
        Err(CheckError::InvalidBase64(_))
    ));
    // "/w==" decodes to the single byte 0xff, which is not UTF-8.
    match read_payment_required(402, Some(b"/w==".to_vec())) {
        Err(CheckError::Other(m)) => assert!(m.starts_with("UTF-8 error: ")),
        other => panic!("unexpected {:?}", other),
    }
    assert_eq!(read_payment_required(402, Some(b"aGVsbG8=".to_vec())), Ok("hello".to_string()));
}

#[test]
fn network_failure_ends_the_check() {
    let checker = Checker::new(10, 10, false, None);
    let (mut st, _) = checker.begin();
    let a = checker.advance(&mut st, CycleEvent::Responded(Err("connection refused".to_string())));
    assert_eq!(finish(a), Err(CheckError::Network("connection refused".to_string())));
    assert!(matches!(st, CycleState::Finished));
}

#[test]
fn schema_and_version_are_checked() {
    let checker = Checker::new(10, 10, false, None);
    let mut st = to_parse(&checker);
    let a = checker.advance(&mut st, CycleEvent::Parsed(Err("missing field `payTo`".to_string())));
    assert_eq!(finish(a), Err(CheckError::SchemaViolation("missing field `payTo`".to_string())));

    let mut st = to_parse(&checker);
    let a = checker.advance(&mut st, CycleEvent::Parsed(Ok(response(1, vec![requirement("1")]))));
    assert_eq!(finish(a), Err(CheckError::InvalidVersion(1)));

    let mut st = to_parse(&checker);
    let a = checker.advance(&mut st, CycleEvent::Parsed(Ok(response(2, vec![]))));
    assert_eq!(
        finish(a),
        Err(CheckError::SchemaViolation("No payment methods accepted by server".to_string()))
    );
}

#[test]
fn dry_run_without_wallet() {
    let checker = Checker::new(10, 10, false, None);
    let mut st = to_parse(&checker);
    let a = checker.advance(&mut st, CycleEvent::Parsed(Ok(response(2, vec![requirement("1")]))));
    assert_eq!(finish(a), Ok(false));
    assert!(matches!(st, CycleState::Finished));
}

#[test]
fn insufficient_funds_quote_the_balance() {
    let checker = Checker::new(10, 10, false, Some(wallet_with(500)));
    let mut st = to_parse(&checker);
    let a = checker.advance(&mut st, CycleEvent::Parsed(Ok(response(2, vec![requirement("1000")]))));
    let e = finish(a).unwrap_err();
    assert_eq!(
        e,
        CheckError::InsufficientFunds { required: "1000".to_string(), available: "500".to_string() }
    );
    assert_eq!(e.code(), "INSUFFICIENT_FUNDS");
    assert_eq!(e.message(), "Insufficient funds: required 1000, available 500");
}

#[test]
fn full_cycle_with_pending_retries() {
    let second = 1_000_000_000u128;
    let checker = Checker::new(10 * second, 60 * second, false, Some(wallet_with(10000)));
    let mut st = to_parse(&checker);
    let a = checker.advance(
        &mut st,
        CycleEvent::Parsed(Ok(response(2, vec![requirement("1000"), requirement("1")]))),
    );
    match a {
        CycleAction::SignPayment { requirement, resource } => {
            assert_eq!(requirement.amount, "1000");
            assert_eq!(resource.url, "https://api.example.com/data");
        },
        other => panic!("unexpected {:?}", other),
    }
    let a = checker.advance(&mut st, CycleEvent::Signed(Ok("cGF5bG9hZA==".to_string())));
    match a {
        CycleAction::SubmitPayment { payload } => assert_eq!(payload, "cGF5bG9hZA=="),
        other => panic!("unexpected {:?}", other),
    }
    let mut waits = Vec::new();
    for (status, elapsed) in [(202u16, 1u128), (425, 2), (202, 3), (202, 4)] {
        let a = checker.advance(
            &mut st,
            CycleEvent::Submitted(Ok(SubmissionResponse { status, elapsed_nanos: elapsed * second })),
        );
        match a {
            CycleAction::Wait { seconds } => waits.push(seconds),
            other => panic!("unexpected {:?}", other),
        }
        let a = checker.advance(&mut st, CycleEvent::Waited);
        assert!(matches!(a, CycleAction::SubmitPayment { .. }));
    }
    assert_eq!(waits, vec![2, 4, 8, 8]);
    let a = checker.advance(
        &mut st,
        CycleEvent::Submitted(Ok(SubmissionResponse { status: 200, elapsed_nanos: 5 * second })),
    );
    assert_eq!(finish(a), Ok(true));
}

#[test]
fn pending_past_the_timeout_is_a_settlement_failure() {
    let checker = Checker::new(10, 100, false, Some(wallet_with(10)));
    let mut st = to_parse(&checker);
    checker.advance(&mut st, CycleEvent::Parsed(Ok(response(2, vec![requirement("1")]))));
    checker.advance(&mut st, CycleEvent::Signed(Ok("p".to_string())));
    let a = checker.advance(
        &mut st,
        CycleEvent::Submitted(Ok(SubmissionResponse { status: 202, elapsed_nanos: 100 })),
    );
    let e = finish(a).unwrap_err();
    assert_eq!(e, CheckError::SettlementFailure(202));
    assert_eq!(e.message(), "Settlement failure: expected 200 OK after signing, got 202 Accepted");
}

#[test]
fn rejected_payment_and_signing_failure() {
    let checker = Checker::new(10, 100, false, Some(wallet_with(10)));
    let mut st = to_parse(&checker);
    checker.advance(&mut st, CycleEvent::Parsed(Ok(response(2, vec![requirement("1")]))));
    checker.advance(&mut st, CycleEvent::Signed(Ok("p".to_string())));
    let a = checker.advance(
        &mut st,
        CycleEvent::Submitted(Ok(SubmissionResponse { status: 403, elapsed_nanos: 1 })),
    );
    let e = finish(a).unwrap_err();
    assert_eq!(e.message(), "Settlement failure: expected 200 OK after signing, got 403 Forbidden");

    let mut st = to_parse(&checker);
    checker.advance(&mut st, CycleEvent::Parsed(Ok(response(2, vec![requirement("1")]))));
    let a = checker.advance(&mut st, CycleEvent::Signed(Err("bad key".to_string())));
    assert_eq!(finish(a), Err(CheckError::SignatureError("bad key".to_string())));
}

#[test]
fn settlement_is_verified_on_chain_when_asked() {
    let checker = Checker::new(10, 100, true, Some(wallet_with(10)));
    let mut st = to_parse(&checker);
    checker.advance(&mut st, CycleEvent::Parsed(Ok(response(2, vec![requirement("1")]))));
    checker.advance(&mut st, CycleEvent::Signed(Ok("p".to_string())));
    let a = checker.advance(
        &mut st,
        CycleEvent::Submitted(Ok(SubmissionResponse { status: 200, elapsed_nanos: 1 })),
    );
    match a {
        CycleAction::VerifySettlement { pay_to, payment_id } => {
            assert_eq!(pay_to, "0x209693Bc6afc0C5328bA36FaF03C514EF312287C");
            assert_eq!(&payment_id[..12], b"v2-nonce-tbd");
        },
        other => panic!("unexpected {:?}", other),
    }
    let a = checker.advance(&mut st, CycleEvent::SettlementChecked(Err("rpc down".to_string())));
    assert_eq!(finish(a), Ok(true));
}

fn to_settlement(checker: &Checker) -> CycleState {
    let mut st = to_parse(checker);
    checker.advance(&mut st, CycleEvent::Parsed(Ok(response(2, vec![requirement("1")]))));
    checker.advance(&mut st, CycleEvent::Signed(Ok("p".to_string())));
    checker.advance(
        &mut st,
        CycleEvent::Submitted(Ok(SubmissionResponse { status: 200, elapsed_nanos: 1 })),
    );
    assert!(matches!(st, CycleState::AwaitingSettlement));
    st
}

#[test]
fn unsettled_payment_fails_verification() {
    let checker = Checker::new(10, 100, true, Some(wallet_with(10)));
    let mut st = to_settlement(&checker);
    let a = checker.advance(&mut st, CycleEvent::SettlementChecked(Ok(false)));
    let e = finish(a).unwrap_err();
    assert_eq!(e, CheckError::VerificationFailed("payment is not settled on chain".to_string()));
    assert_eq!(e.code(), "VERIFICATION_FAILED");
    assert_eq!(e.message(), "Settlement verification failed: payment is not settled on chain");

    let mut st = to_settlement(&checker);
    let a = checker.advance(&mut st, CycleEvent::SettlementChecked(Ok(true)));
    assert_eq!(finish(a), Ok(true));
}

#[test]
fn backoff_values() {
    assert_eq!(backoff(0), 1);
    assert_eq!(backoff(1), 2);
    assert_eq!(backoff(2), 4);
    assert_eq!(backoff(3), 8);
    assert_eq!(backoff(u32::MAX), 8);
}

#[test]
fn error_codes_and_messages() {
    let errors = vec![
        (CheckError::Network("timeout".to_string()), "NETWORK_ERROR", "Network error: timeout"),
        (
            CheckError::UnexpectedStatusCode(200),
            "UNEXPECTED_STATUS_CODE",
            "Expected status 402 Payment Required, got 200 OK",
        ),
        (CheckError::MissingHeader, "MISSING_HEADER", "Missing PAYMENT-REQUIRED header"),
        (
            CheckError::InvalidHeaderChars,
            "INVALID_HEADER_CHARS",
            "Invalid characters in PAYMENT-REQUIRED header",
        ),
        (
            CheckError::InvalidBase64("bad".to_string()),
            "INVALID_BASE64",
            "Invalid base64 in PAYMENT-REQUIRED header: bad",
        ),
        (
            CheckError::SchemaViolation("x".to_string()),
            "SCHEMA_VIOLATION",
            "Failed to parse PaymentRequirement JSON: x",
        ),
        (
            CheckError::InvalidVersion(1),
            "INVALID_VERSION",
            "Unsupported x402 version: 1. Supported versions: 2",
        ),
        (CheckError::SignatureError("k".to_string()), "SIGNATURE_ERROR", "Signature error: k"),
        (
            CheckError::SettlementFailure(999),
            "SETTLEMENT_FAILURE",
            "Settlement failure: expected 200 OK after signing, got 999 <unknown status code>",
        ),
        (
            CheckError::VerificationFailed("v".to_string()),
            "VERIFICATION_FAILED",
            "Settlement verification failed: v",
        ),
        (CheckError::Other("o".to_string()), "OTHER_ERROR", "Other error: o"),
    ];
    for (e, code, message) in errors {
        assert_eq!(e.code(), code);
        assert_eq!(e.message(), message);
    }
}

#[test]
fn results_and_report_lines() {
    let ok = check_result("X402 Demo", "https://api.x402.org/demo", &Ok(true));
    assert_eq!(ok.status, CheckStatus::Pass);
    assert_eq!(ok.error_code, None);
    assert_eq!(ok.message, "Full payment lifecycle verified (x402 v2 compliant)");
    assert_eq!(
        report_line(&ok),
        "X402 Demo            | PASS   | -                         | Full payment lifecycle verified (x402 v2 compliant)"
    );

    let dry = check_result("a", "u", &Ok(false));
    assert_eq!(dry.message, "Payment requirements validated (dry-run, x402 v2 compliant)");

    let failed = check_result(
        "My Protected API",
        "https://api.myapp.com/v1/protected",
        &Err(CheckError::SettlementFailure(403)),
    );
    assert_eq!(failed.status, CheckStatus::Fail);
    assert_eq!(failed.error_code.as_deref(), Some("SETTLEMENT_FAILURE"));
    assert_eq!(
        report_line(&failed),
        "My Protected API     | FAIL   | SETTLEMENT_FAILURE        | Settlement failure: expected 200 OK after signing, got 403 Forbidden"
    );

    let long = CheckResult {
        name: "a-name-longer-than-twenty".to_string(),
        url: String::new(),
        status: CheckStatus::Pass,
        error_code: None,
        message: String::new(),
    };
    assert_eq!(
        report_line(&long),
        "a-name-longer-than-twenty | PASS   | -                         | "
    );
}
