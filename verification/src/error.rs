//! Why a check failed, with the stable code and the message that reports it.
use vstd::prelude::*;

use crate::text::{decimal, u64_to_decimal};

verus! {

broadcast use vstd::string::group_string_axioms;

/// An HTTP status code as responses carry it (`100..=999`).
pub open spec fn is_status_code(code: u16) -> bool {
    100 <= code <= 999
}

/// What the `Display` of `reqwest::StatusCode` writes for a status code: the
/// number, a space and the canonical reason phrase.
pub uninterp spec fn status_code_text(code: u16) -> Seq<char>;

/// Calls `StatusCode::from_u16` and the `Display` of `StatusCode` (reqwest);
/// the text is named `status_code_text`. `from_u16` accepts every code in
/// `100..=999`, so the error arm is not reached.
#[verifier::external_body]
pub(crate) fn status_text(code: u16) -> (res: String)
    requires
        is_status_code(code),
    ensures
        res@ == status_code_text(code),
{
    match reqwest::StatusCode::from_u16(code) {
        Ok(status) => status.to_string(),
        Err(e) => e.to_string(),
    }
}

/// Why a check of an endpoint failed.
#[derive(Debug, Clone, PartialEq, Eq)]
pub enum CheckError {
    /// A request could not be completed (the transport's message).
    Network(String),
    /// The first response was not `402 Payment Required`.
    UnexpectedStatusCode(u16),
    /// The 402 response had no `PAYMENT-REQUIRED` header.
    MissingHeader,
    /// The header held bytes other than visible ASCII and tabs.
    InvalidHeaderChars,
    /// The header was not Base64 (the decoder's message).
    InvalidBase64(String),
    /// The payment requirements did not have the x402 v2 shape.
    SchemaViolation(String),
    /// The payment requirements announced a version other than 2.
    InvalidVersion(u32),
    /// The payment could not be signed.
    SignatureError(String),
    /// After signing, the endpoint answered with this status instead of 200.
    SettlementFailure(u16),
    /// The wallet holds less than the required amount.
    InsufficientFunds { required: String, available: String },
    /// The settlement could not be confirmed.
    VerificationFailed(String),
    /// Any other failure (its message).
    Other(String),
}

impl CheckError {
    /// Status codes held by the error are real status codes.
    pub open spec fn well_formed(self) -> bool {
        match self {
            CheckError::UnexpectedStatusCode(c) => is_status_code(c),
            CheckError::SettlementFailure(c) => is_status_code(c),
            _ => true,
        }
    }

    /// The position of the error's kind in the list of kinds.
    pub open spec fn kind_index(self) -> nat {
        match self {
            CheckError::Network(_) => 0,
            CheckError::UnexpectedStatusCode(_) => 1,
            CheckError::MissingHeader => 2,
            CheckError::InvalidHeaderChars => 3,
            CheckError::InvalidBase64(_) => 4,
            CheckError::SchemaViolation(_) => 5,
            CheckError::InvalidVersion(_) => 6,
            CheckError::SignatureError(_) => 7,
            CheckError::SettlementFailure(_) => 8,
            CheckError::InsufficientFunds { .. } => 9,
            CheckError::VerificationFailed(_) => 10,
            CheckError::Other(_) => 11,
        }
    }

    /// The stable code that reports name for each kind of failure.
    pub open spec fn spec_code(self) -> Seq<char> {
        match self {
            CheckError::Network(_) => "NETWORK_ERROR"@,
            CheckError::UnexpectedStatusCode(_) => "UNEXPECTED_STATUS_CODE"@,
            CheckError::MissingHeader => "MISSING_HEADER"@,
            CheckError::InvalidHeaderChars => "INVALID_HEADER_CHARS"@,
            CheckError::InvalidBase64(_) => "INVALID_BASE64"@,
            CheckError::SchemaViolation(_) => "SCHEMA_VIOLATION"@,
            CheckError::InvalidVersion(_) => "INVALID_VERSION"@,
            CheckError::SignatureError(_) => "SIGNATURE_ERROR"@,
            CheckError::SettlementFailure(_) => "SETTLEMENT_FAILURE"@,
            CheckError::InsufficientFunds { .. } => "INSUFFICIENT_FUNDS"@,
            CheckError::VerificationFailed(_) => "VERIFICATION_FAILED"@,
            CheckError::Other(_) => "OTHER_ERROR"@,
        }
    }

    /// The human-readable message of the failure.
    pub open spec fn spec_message(self) -> Seq<char> {
        match self {
            CheckError::Network(m) => "Network error: "@ + m@,
            CheckError::UnexpectedStatusCode(c) => "Expected status 402 Payment Required, got "@
                + status_code_text(c),
            CheckError::MissingHeader => "Missing PAYMENT-REQUIRED header"@,
            CheckError::InvalidHeaderChars => "Invalid characters in PAYMENT-REQUIRED header"@,
            CheckError::InvalidBase64(m) => "Invalid base64 in PAYMENT-REQUIRED header: "@ + m@,
            CheckError::SchemaViolation(m) => "Failed to parse PaymentRequirement JSON: "@ + m@,
            CheckError::InvalidVersion(v) => "Unsupported x402 version: "@ + decimal(v as nat)
                + ". Supported versions: 2"@,
            CheckError::SignatureError(m) => "Signature error: "@ + m@,
            CheckError::SettlementFailure(c) =>
                "Settlement failure: expected 200 OK after signing, got "@ + status_code_text(c),
            CheckError::InsufficientFunds { required, available } => "Insufficient funds: required "@
                + required@ + ", available "@ + available@,
            CheckError::VerificationFailed(m) => "Settlement verification failed: "@ + m@,
            CheckError::Other(m) => "Other error: "@ + m@,
        }
    }

    /// The stable code of the failure (such as `INSUFFICIENT_FUNDS`), for
    /// automated diagnostics.
    pub fn code(&self) -> (res: &'static str)
        ensures
            res@ == self.spec_code(),
    {
        match self {
            CheckError::Network(_) => "NETWORK_ERROR",
            CheckError::UnexpectedStatusCode(_) => "UNEXPECTED_STATUS_CODE",
            CheckError::MissingHeader => "MISSING_HEADER",
            CheckError::InvalidHeaderChars => "INVALID_HEADER_CHARS",
            CheckError::InvalidBase64(_) => "INVALID_BASE64",
            CheckError::SchemaViolation(_) => "SCHEMA_VIOLATION",
            CheckError::InvalidVersion(_) => "INVALID_VERSION",
            CheckError::SignatureError(_) => "SIGNATURE_ERROR",
            CheckError::SettlementFailure(_) => "SETTLEMENT_FAILURE",
            CheckError::InsufficientFunds { .. } => "INSUFFICIENT_FUNDS",
            CheckError::VerificationFailed(_) => "VERIFICATION_FAILED",
            CheckError::Other(_) => "OTHER_ERROR",
        }
    }

    /// The human-readable message of the failure, as the report shows it.
    pub fn message(&self) -> (res: String)
        requires
            self.well_formed(),
        ensures
            res@ == self.spec_message(),
    {
        match self {
            CheckError::Network(m) => {
                let mut res = String::from_str("Network error: ");
                res.append(m.as_str());
                res
            },
            CheckError::UnexpectedStatusCode(c) => {
                let mut res = String::from_str("Expected status 402 Payment Required, got ");
                let t = status_text(*c);
                res.append(t.as_str());
                res
            },
            CheckError::MissingHeader => String::from_str("Missing PAYMENT-REQUIRED header"),
            CheckError::InvalidHeaderChars => String::from_str(
                "Invalid characters in PAYMENT-REQUIRED header",
            ),
            CheckError::InvalidBase64(m) => {
                let mut res = String::from_str("Invalid base64 in PAYMENT-REQUIRED header: ");
                res.append(m.as_str());
                res
            },
            CheckError::SchemaViolation(m) => {
                let mut res = String::from_str("Failed to parse PaymentRequirement JSON: ");
                res.append(m.as_str());
                res
            },
            CheckError::InvalidVersion(v) => {
                let mut res = String::from_str("Unsupported x402 version: ");
                let d = u64_to_decimal(*v as u64);
                res.append(d.as_str());
                res.append(". Supported versions: 2");
                res
            },
            CheckError::SignatureError(m) => {
                let mut res = String::from_str("Signature error: ");
                res.append(m.as_str());
                res
            },
            CheckError::SettlementFailure(c) => {
                let mut res = String::from_str(
                    "Settlement failure: expected 200 OK after signing, got ",
                );
                let t = status_text(*c);
                res.append(t.as_str());
                res
            },
            CheckError::InsufficientFunds { required, available } => {
                let mut res = String::from_str("Insufficient funds: required ");
                res.append(required.as_str());
                res.append(", available ");
                res.append(available.as_str());
                res
            },
            CheckError::VerificationFailed(m) => {
                let mut res = String::from_str("Settlement verification failed: ");
                res.append(m.as_str());
                res
            },
            CheckError::Other(m) => {
                let mut res = String::from_str("Other error: ");
                res.append(m.as_str());
                res
            },
        }
    }
}

/// The code of an error names its kind: two errors have the same code
/// exactly when they are of the same kind.
pub proof fn law_code_names_kind(a: CheckError, b: CheckError)
    ensures
        (a.spec_code() == b.spec_code()) <==> (a.kind_index() == b.kind_index()),
{
    reveal_strlit("NETWORK_ERROR");
    reveal_strlit("UNEXPECTED_STATUS_CODE");
    reveal_strlit("MISSING_HEADER");
    reveal_strlit("INVALID_HEADER_CHARS");
    reveal_strlit("INVALID_BASE64");
    reveal_strlit("SCHEMA_VIOLATION");
    reveal_strlit("INVALID_VERSION");
    reveal_strlit("SIGNATURE_ERROR");
    reveal_strlit("SETTLEMENT_FAILURE");
    reveal_strlit("INSUFFICIENT_FUNDS");
    reveal_strlit("VERIFICATION_FAILED");
    reveal_strlit("OTHER_ERROR");
    if a.kind_index() != b.kind_index() {
        let ca = a.spec_code();
        let cb = b.spec_code();
        if ca.len() == cb.len() {
            assert(ca[0] != cb[0] || ca[1] != cb[1] || ca[2] != cb[2] || ca[3] != cb[3] || ca[8]
                != cb[8]);
        }
    }
}

} // verus!
