//! Checking an x402 endpoint: the payment cycle as a state machine that the
//! caller drives (it performs each action and reports what came of it), the
//! result of a check, and the line that reports it.
use vstd::prelude::*;
use vstd::string::StringSliceAdditionalSpecFns;
use vstd::utf8::{decode_utf8, valid_utf8};

use crate::amount::amount_to_decimal;
use crate::encoding::{
    base64_decode, base64_decode_error_text, base64_decoded, header_is_text, is_header_text,
    string_from_utf8, utf8_error_text,
};
use crate::error::{is_status_code, CheckError};
use crate::text::{chars_of, chars_equal, decimal, pad_right, push_padded, to_uppercase, uppercased};
use crate::wallet::{
    covers, payment_id_bytes, payment_id_word, PaymentRequirements, ResourceInfo, WalletManager,
};

verus! {

broadcast use vstd::string::group_string_axioms;

// ---------------------------------------------------------------------------
// Results
// ---------------------------------------------------------------------------

/// Whether an endpoint passed its check.
#[derive(Debug, Clone, Copy, PartialEq, Eq, Structural)]
pub enum CheckStatus {
    Pass,
    Fail,
}

/// The outcome of checking one endpoint.
#[derive(Debug)]
pub struct CheckResult {
    pub name: String,
    pub url: String,
    pub status: CheckStatus,
    /// The stable code of the failure; `None` when the check passed.
    pub error_code: Option<String>,
    pub message: String,
}

/// The message of a passed check: a full payment cycle, or a dry run that
/// only validated the payment requirements.
pub open spec fn pass_message(full_cycle: bool) -> Seq<char> {
    if full_cycle {
        "Full payment lifecycle verified (x402 v2 compliant)"@
    } else {
        "Payment requirements validated (dry-run, x402 v2 compliant)"@
    }
}

/// The result that reports the outcome of a payment cycle for an endpoint:
/// a pass with its message, or a failure with the error's code and message.
pub fn check_result(name: &str, url: &str, outcome: &Result<bool, CheckError>) -> (res:
    CheckResult)
    requires
        outcome matches Err(e) ==> e.well_formed(),
    ensures
        res.name@ == name@,
        res.url@ == url@,
        match outcome {
            Ok(full) => {
                &&& res.status == CheckStatus::Pass
                &&& res.error_code is None
                &&& res.message@ == pass_message(*full)
            },
            Err(e) => {
                &&& res.status == CheckStatus::Fail
                &&& res.error_code matches Some(c) && c@ == e.spec_code()
                &&& res.message@ == e.spec_message()
            },
        },
{
    match outcome {
        Ok(full) => {
            let message = if *full {
                String::from_str("Full payment lifecycle verified (x402 v2 compliant)")
            } else {
                String::from_str("Payment requirements validated (dry-run, x402 v2 compliant)")
            };
            CheckResult {
                name: String::from_str(name),
                url: String::from_str(url),
                status: CheckStatus::Pass,
                error_code: None,
                message,
            }
        },
        Err(e) => CheckResult {
            name: String::from_str(name),
            url: String::from_str(url),
            status: CheckStatus::Fail,
            error_code: Some(String::from_str(e.code())),
            message: e.message(),
        },
    }
}

/// The word a report shows for a status.
pub open spec fn status_word(s: CheckStatus) -> Seq<char> {
    match s {
        CheckStatus::Pass => "PASS"@,
        CheckStatus::Fail => "FAIL"@,
    }
}

/// The line of the human-readable report for a result: name (padded to 20),
/// status (to 6), error code or `-` (to 25) and message, separated by ` | `.
pub open spec fn report_line_text(r: CheckResult) -> Seq<char> {
    let code = match r.error_code {
        Some(c) => c@,
        None => "-"@,
    };
    pad_right(r.name@, 20) + " | "@ + pad_right(status_word(r.status), 6) + " | "@ + pad_right(
        code,
        25,
    ) + " | "@ + r.message@
}

/// The report line for a result.
pub fn report_line(r: &CheckResult) -> (res: String)
    ensures
        res@ == report_line_text(*r),
{
    let mut out = String::new();
    push_padded(&mut out, r.name.as_str(), 20);
    out.append(" | ");
    let word = match r.status {
        CheckStatus::Pass => "PASS",
        CheckStatus::Fail => "FAIL",
    };
    push_padded(&mut out, word, 6);
    out.append(" | ");
    match &r.error_code {
        Some(c) => push_padded(&mut out, c.as_str(), 25),
        None => push_padded(&mut out, "-", 25),
    }
    out.append(" | ");
    out.append(r.message.as_str());
    assert(out@ =~= report_line_text(*r));
    out
}

// ---------------------------------------------------------------------------
// Requests
// ---------------------------------------------------------------------------

/// The HTTP method of a probe.
#[derive(Debug, Clone, Copy, PartialEq, Eq, Structural)]
pub enum HttpMethod {
    Get,
    Post,
}

/// The method that an upper-cased method name selects: `POST`, or `GET` for
/// anything else.
pub open spec fn method_named(upper: Seq<char>) -> HttpMethod {
    if upper == "POST"@ {
        HttpMethod::Post
    } else {
        HttpMethod::Get
    }
}

/// The method an upper-cased method name selects.
pub fn method_from_uppercase(upper: &str) -> (res: HttpMethod)
    ensures
        res == method_named(upper@),
{
    let cs = chars_of(upper);
    if chars_equal(&cs, "POST") {
        HttpMethod::Post
    } else {
        HttpMethod::Get
    }
}

/// The method a configured method name selects, whatever its case.
pub fn parse_method(method: &str) -> (res: HttpMethod)
    ensures
        res == method_named(uppercased(method@)),
{
    let upper = to_uppercase(method);
    method_from_uppercase(upper.as_str())
}

/// The x402 v2 `PaymentRequired` object that a 402 response carries.
/// `extensions` holds JSON text.
#[derive(Debug)]
pub struct PaymentRequiredResponse {
    pub x402_version: u32,
    pub error: Option<String>,
    pub resource: ResourceInfo,
    pub accepts: Vec<PaymentRequirements>,
    pub extensions: String,
}

/// The bytes of an optional header value.
pub open spec fn header_view(h: Option<Vec<u8>>) -> Option<Seq<u8>> {
    match h {
        Some(v) => Some(v@),
        None => None,
    }
}

/// `res` is what reading the first response gives: the JSON text of its
/// `PAYMENT-REQUIRED` header, or why it has none. The response must be a 402,
/// the header present and text, its text Base64, and what that decodes to
/// UTF-8.
pub open spec fn payment_required_read(
    status: u16,
    header: Option<Seq<u8>>,
    res: Result<String, CheckError>,
) -> bool {
    if status != 402 {
        res == Err::<String, CheckError>(CheckError::UnexpectedStatusCode(status))
    } else {
        match header {
            None => res == Err::<String, CheckError>(CheckError::MissingHeader),
            Some(h) => if !is_header_text(h) {
                res == Err::<String, CheckError>(CheckError::InvalidHeaderChars)
            } else {
                match base64_decoded(h) {
                    None => res matches Err(CheckError::InvalidBase64(m)) && m@
                        == base64_decode_error_text(h),
                    Some(b) => if !valid_utf8(b) {
                        res matches Err(CheckError::Other(m)) && m@ == "UTF-8 error: "@
                            + utf8_error_text(b)
                    } else {
                        res matches Ok(t) && t@ == decode_utf8(b)
                    },
                }
            },
        }
    }
}

/// Reads the first response of a check (see `payment_required_read`).
pub fn read_payment_required(status: u16, header: Option<Vec<u8>>) -> (res: Result<
    String,
    CheckError,
>)
    ensures
        payment_required_read(status, header_view(header), res),
{
    if status != 402 {
        return Err(CheckError::UnexpectedStatusCode(status));
    }
    let bytes = match header {
        Some(b) => b,
        None => return Err(CheckError::MissingHeader),
    };
    if !header_is_text(bytes.as_slice()) {
        return Err(CheckError::InvalidHeaderChars);
    }
    let decoded = match base64_decode(bytes.as_slice()) {
        Ok(d) => d,
        Err(m) => return Err(CheckError::InvalidBase64(m)),
    };
    match string_from_utf8(decoded) {
        Ok(t) => Ok(t),
        Err(m) => {
            let mut text = String::from_str("UTF-8 error: ");
            text.append(m.as_str());
            Err(CheckError::Other(text))
        },
    }
}

// ---------------------------------------------------------------------------
// The payment cycle
// ---------------------------------------------------------------------------

/// The answer to a request: its status and, for the first request, the raw
/// `PAYMENT-REQUIRED` header.
#[derive(Debug)]
pub struct HttpResponse {
    pub status: u16,
    pub payment_required: Option<Vec<u8>>,
}

/// The answer to a submitted payment, and how long the submission has been
/// going on (since the first submission, in nanoseconds).
#[derive(Debug, Clone, Copy)]
pub struct SubmissionResponse {
    pub status: u16,
    pub elapsed_nanos: u128,
}

/// What the caller reports after performing an action.
#[derive(Debug)]
pub enum CycleEvent {
    /// The first request was answered, or failed with the transport's message.
    Responded(Result<HttpResponse, String>),
    /// The JSON of the payment requirements was read into the object, or
    /// refused with the reader's message.
    Parsed(Result<PaymentRequiredResponse, String>),
    /// The payment was signed (the `PAYMENT-SIGNATURE` value), or could not be.
    Signed(Result<String, String>),
    /// A submission was answered, or failed with the transport's message.
    Submitted(Result<SubmissionResponse, String>),
    /// The wait is over.
    Waited,
    /// The on-chain settlement check ended: whether the chain holds the
    /// payment as settled, or why the chain could not be asked (the RPC's
    /// message).
    SettlementChecked(Result<bool, String>),
}

/// What the caller is asked to do next.
#[derive(Debug)]
pub enum CycleAction {
    /// Send the first request, without payment.
    SendRequest,
    /// Read this JSON text as the payment requirements.
    ParseRequirements(String),
    /// Sign a payment of `requirement` for `resource`.
    SignPayment { requirement: PaymentRequirements, resource: ResourceInfo },
    /// Send the request again with this `PAYMENT-SIGNATURE` header.
    SubmitPayment { payload: String },
    /// Wait this many seconds, then report `Waited`.
    Wait { seconds: u64 },
    /// Ask the chain whether the payment to `pay_to`, under the 32-byte
    /// `payment_id`, has settled.
    VerifySettlement { pay_to: String, payment_id: [u8; 32] },
    /// The check is over: a full cycle (`true`), a dry run (`false`), or why
    /// it failed.
    Finish(Result<bool, CheckError>),
}

/// Where a payment cycle stands.
#[derive(Debug)]
pub enum CycleState {
    /// The first request is out.
    AwaitingResponse,
    /// The payment requirements are being read.
    AwaitingParse,
    /// The payment for `requirement` is being signed.
    AwaitingSignature { requirement: PaymentRequirements },
    /// The signed payment is out; `retries` submissions were answered
    /// "pending" so far.
    AwaitingSubmission { requirement: PaymentRequirements, payload: String, retries: u32 },
    /// Waiting before submitting again.
    AwaitingWait { requirement: PaymentRequirements, payload: String, retries: u32 },
    /// The settlement is being checked on chain.
    AwaitingSettlement,
    /// The check is over.
    Finished,
}

/// The message of a payment that the chain holds as not settled.
pub open spec fn unsettled_message() -> Seq<char> {
    "payment is not settled on chain"@
}

/// `outcome` is what the on-chain `answer` makes of a payment that the
/// endpoint accepted: settled passes, not settled fails with
/// `VerificationFailed`, and no answer (the chain could not be asked) is
/// inconclusive and accepted as settled.
pub open spec fn settlement_judged(answer: Result<bool, String>, outcome: Result<bool, CheckError>) -> bool {
    match answer {
        Ok(true) => outcome == Ok::<bool, CheckError>(true),
        Ok(false) => outcome matches Err(CheckError::VerificationFailed(m)) && m@ == unsettled_message(),
        Err(_) => outcome == Ok::<bool, CheckError>(true),
    }
}

/// Judges the on-chain answer about a payment (see `settlement_judged`).
pub fn settlement_outcome(answer: &Result<bool, String>) -> (res: Result<bool, CheckError>)
    ensures
        settlement_judged(*answer, res),
{
    match answer {
        Ok(true) => Ok(true),
        Ok(false) => Err(CheckError::VerificationFailed(String::from_str("payment is not settled on chain"))),
        Err(_) => Ok(true),
    }
}

/// The payment id under which settlements are looked up on chain.
pub open spec fn settlement_id() -> Seq<u8> {
    "v2-nonce-tbd".spec_bytes()
}

/// `2^e`.
pub open spec fn power_of_two(e: nat) -> nat
    decreases e,
{
    if e == 0 {
        1
    } else {
        2 * power_of_two((e - 1) as nat)
    }
}

/// The seconds to wait after the `retries`-th pending answer:
/// `min(2^min(retries, 3), 10)`.
pub open spec fn backoff_seconds(retries: u32) -> u64 {
    let e: nat = if retries < 3 {
        retries as nat
    } else {
        3
    };
    let p = power_of_two(e);
    if p < 10 {
        p as u64
    } else {
        10
    }
}

/// The wait after the `retries`-th pending answer.
pub fn backoff(retries: u32) -> (res: u64)
    ensures
        res == backoff_seconds(retries),
{
    proof {
        reveal_with_fuel(power_of_two, 4);
    }
    let p: u64 = if retries == 0 {
        1
    } else if retries == 1 {
        2
    } else if retries == 2 {
        4
    } else {
        8
    };
    if p < 10 {
        p
    } else {
        10
    }
}

/// A submission answered "not yet settled": `202 Accepted` or `425 Too Early`.
pub open spec fn is_pending_status(status: u16) -> bool {
    status == 202 || status == 425
}

/// The event is the one the state waits for.
pub open spec fn expects(state: CycleState, event: CycleEvent) -> bool {
    match state {
        CycleState::AwaitingResponse => event is Responded,
        CycleState::AwaitingParse => event is Parsed,
        CycleState::AwaitingSignature { .. } => event is Signed,
        CycleState::AwaitingSubmission { .. } => event is Submitted,
        CycleState::AwaitingWait { .. } => event is Waited,
        CycleState::AwaitingSettlement => event is SettlementChecked,
        CycleState::Finished => false,
    }
}

/// The statuses that an event reports are real status codes.
pub open spec fn event_well_formed(event: CycleEvent) -> bool {
    match event {
        CycleEvent::Responded(Ok(r)) => is_status_code(r.status),
        CycleEvent::Submitted(Ok(r)) => is_status_code(r.status),
        _ => true,
    }
}

/// The first requirement that a server accepts.
pub open spec fn first_requirement(resp: PaymentRequiredResponse) -> PaymentRequirements {
    resp.accepts@[0]
}

/// Drives the checks of endpoints: how long a payment may stay pending,
/// whether settlements are checked on chain, and the wallet that pays (none
/// for a dry run).
pub struct Checker {
    /// The time limit of each request, in nanoseconds.
    pub timeout_nanos: u128,
    /// How long a submitted payment may stay pending, in nanoseconds.
    pub settlement_timeout_nanos: u128,
    /// Whether a settled payment is also looked up on chain.
    pub verify_settlement: bool,
    /// The paying wallet; without one, checks stop after validating the
    /// payment requirements.
    pub wallet_manager: Option<WalletManager>,
}

impl Checker {
    /// A checker with these settings.
    pub fn new(
        timeout_nanos: u128,
        settlement_timeout_nanos: u128,
        verify_settlement: bool,
        wallet_manager: Option<WalletManager>,
    ) -> (res: Checker)
        ensures
            res.timeout_nanos == timeout_nanos,
            res.settlement_timeout_nanos == settlement_timeout_nanos,
            res.verify_settlement == verify_settlement,
            res.wallet_manager == wallet_manager,
    {
        Checker { timeout_nanos, settlement_timeout_nanos, verify_settlement, wallet_manager }
    }

    /// A pending answer within the settlement timeout leads to a retry.
    pub open spec fn retries_after(self, r: SubmissionResponse) -> bool {
        is_pending_status(r.status) && r.elapsed_nanos < self.settlement_timeout_nanos
    }

    /// One more retry can be counted (the count is 32 bits wide).
    pub open spec fn retry_room(self, state: CycleState, event: CycleEvent) -> bool {
        match (state, event) {
            (
                CycleState::AwaitingSubmission { retries, .. },
                CycleEvent::Submitted(Ok(r)),
            ) => self.retries_after(r) ==> retries < u32::MAX,
            _ => true,
        }
    }

    /// How the cycle moves on an event: from `state` to `next`, asking for
    /// `action`.
    pub open spec fn advances(
        self,
        state: CycleState,
        event: CycleEvent,
        next: CycleState,
        action: CycleAction,
    ) -> bool {
        match event {
            CycleEvent::Responded(Err(m)) => next is Finished && action == CycleAction::Finish(
                Err(CheckError::Network(m)),
            ),
            CycleEvent::Responded(Ok(resp)) => match action {
                CycleAction::ParseRequirements(t) => next is AwaitingParse
                    && payment_required_read(
                    resp.status,
                    header_view(resp.payment_required),
                    Ok(t),
                ),
                CycleAction::Finish(Err(e)) => next is Finished && payment_required_read(
                    resp.status,
                    header_view(resp.payment_required),
                    Err(e),
                ),
                _ => false,
            },
            CycleEvent::Parsed(Err(m)) => next is Finished && action == CycleAction::Finish(
                Err(CheckError::SchemaViolation(m)),
            ),
            CycleEvent::Parsed(Ok(resp)) => if resp.x402_version != 2 {
                next is Finished && action == CycleAction::Finish(
                    Err(CheckError::InvalidVersion(resp.x402_version)),
                )
            } else if resp.accepts@.len() == 0 {
                next is Finished && (action matches CycleAction::Finish(
                    Err(CheckError::SchemaViolation(m)),
                ) && m@ == "No payment methods accepted by server"@)
            } else {
                match self.wallet_manager {
                    None => next is Finished && action == CycleAction::Finish(Ok(false)),
                    Some(wm) => if !covers(
                        wm.spec_usdc_balance(),
                        first_requirement(resp).amount@,
                    ) {
                        next is Finished && (action matches CycleAction::Finish(
                            Err(CheckError::InsufficientFunds { required, available }),
                        ) && required == first_requirement(resp).amount && available@ == decimal(
                            wm.spec_usdc_balance(),
                        ))
                    } else {
                        next == CycleState::AwaitingSignature {
                            requirement: first_requirement(resp),
                        } && action == CycleAction::SignPayment {
                            requirement: first_requirement(resp),
                            resource: resp.resource,
                        }
                    },
                }
            },
            CycleEvent::Signed(Err(m)) => next is Finished && action == CycleAction::Finish(
                Err(CheckError::SignatureError(m)),
            ),
            CycleEvent::Signed(Ok(payload)) => match state {
                CycleState::AwaitingSignature { requirement } => next
                    == CycleState::AwaitingSubmission {
                    requirement,
                    payload,
                    retries: 0,
                } && action == (CycleAction::SubmitPayment { payload }),
                _ => false,
            },
            CycleEvent::Submitted(Err(m)) => next is Finished && action == CycleAction::Finish(
                Err(CheckError::Network(m)),
            ),
            CycleEvent::Submitted(Ok(r)) => match state {
                CycleState::AwaitingSubmission { requirement, payload, retries } => if r.status
                    == 200 {
                    if self.verify_settlement {
                        next is AwaitingSettlement && (action matches CycleAction::VerifySettlement {
                            pay_to,
                            payment_id,
                        } && pay_to == requirement.pay_to && payment_id@ == payment_id_word(
                            settlement_id(),
                        ))
                    } else {
                        next is Finished && action == CycleAction::Finish(Ok(true))
                    }
                } else if self.retries_after(r) {
                    next == CycleState::AwaitingWait {
                        requirement,
                        payload,
                        retries: (retries + 1) as u32,
                    } && action == CycleAction::Wait {
                        seconds: backoff_seconds((retries + 1) as u32),
                    }
                } else {
                    next is Finished && action == CycleAction::Finish(
                        Err(CheckError::SettlementFailure(r.status)),
                    )
                },
                _ => false,
            },
            CycleEvent::Waited => match state {
                CycleState::AwaitingWait { requirement, payload, retries } => next
                    == CycleState::AwaitingSubmission { requirement, payload, retries }
                    && action == (CycleAction::SubmitPayment { payload }),
                _ => false,
            },
            CycleEvent::SettlementChecked(answer) => next is Finished && (action matches CycleAction::Finish(
                outcome,
            ) && settlement_judged(answer, outcome)),
        }
    }

    /// The payment phase (signing, submitting, waiting, checking the
    /// settlement) is only ever reached with a wallet.
    pub open spec fn consistent(self, state: CycleState) -> bool {
        match state {
            CycleState::AwaitingSignature { .. } => self.wallet_manager is Some,
            CycleState::AwaitingSubmission { .. } => self.wallet_manager is Some,
            CycleState::AwaitingWait { .. } => self.wallet_manager is Some,
            CycleState::AwaitingSettlement => self.wallet_manager is Some,
            _ => true,
        }
    }

    /// Starts a check: the first request goes out.
    pub fn begin(&self) -> (res: (CycleState, CycleAction))
        ensures
            res.0 is AwaitingResponse,
            res.1 is SendRequest,
            self.consistent(res.0),
    {
        (CycleState::AwaitingResponse, CycleAction::SendRequest)
    }

    /// Moves the cycle on the event that answers its last action, and says
    /// what to do next.
    pub fn advance(&self, state: &mut CycleState, event: CycleEvent) -> (action: CycleAction)
        requires
            expects(*old(state), event),
            event_well_formed(event),
            self.retry_room(*old(state), event),
        ensures
            self.advances(*old(state), event, *final(state), action),
            action matches CycleAction::Finish(Err(e)) ==> e.well_formed(),
    {
        let mut current = CycleState::Finished;
        std::mem::swap(&mut current, state);
        match event {
            CycleEvent::Responded(Err(m)) => {
                *state = CycleState::Finished;
                CycleAction::Finish(Err(CheckError::Network(m)))
            },
            CycleEvent::Responded(Ok(resp)) => {
                match read_payment_required(resp.status, resp.payment_required) {
                    Ok(t) => {
                        *state = CycleState::AwaitingParse;
                        CycleAction::ParseRequirements(t)
                    },
                    Err(e) => {
                        *state = CycleState::Finished;
                        CycleAction::Finish(Err(e))
                    },
                }
            },
            CycleEvent::Parsed(Err(m)) => {
                *state = CycleState::Finished;
                CycleAction::Finish(Err(CheckError::SchemaViolation(m)))
            },
            CycleEvent::Parsed(Ok(resp)) => {
                *state = CycleState::Finished;
                if resp.x402_version != 2 {
                    return CycleAction::Finish(Err(CheckError::InvalidVersion(resp.x402_version)));
                }
                if resp.accepts.len() == 0 {
                    return CycleAction::Finish(
                        Err(
                            CheckError::SchemaViolation(
                                String::from_str("No payment methods accepted by server"),
                            ),
                        ),
                    );
                }
                let requirement = resp.accepts[0].clone();
                match &self.wallet_manager {
                    None => CycleAction::Finish(Ok(false)),
                    Some(wm) => {
                        if !wm.has_sufficient_funds(requirement.amount.as_str()) {
                            let available = amount_to_decimal(&wm.get_usdc_balance());
                            return CycleAction::Finish(
                                Err(
                                    CheckError::InsufficientFunds {
                                        required: requirement.amount.clone(),
                                        available,
                                    },
                                ),
                            );
                        }
                        *state = CycleState::AwaitingSignature { requirement: requirement.clone() };
                        CycleAction::SignPayment { requirement, resource: resp.resource }
                    },
                }
            },
            CycleEvent::Signed(Err(m)) => {
                *state = CycleState::Finished;
                CycleAction::Finish(Err(CheckError::SignatureError(m)))
            },
            CycleEvent::Signed(Ok(payload)) => {
                match current {
                    CycleState::AwaitingSignature { requirement } => {
                        *state = CycleState::AwaitingSubmission {
                            requirement,
                            payload: payload.clone(),
                            retries: 0,
                        };
                        CycleAction::SubmitPayment { payload }
                    },
                    _ => {
                        // `expects` rules this out.
                        *state = CycleState::Finished;
                        CycleAction::SendRequest
                    },
                }
            },
            CycleEvent::Submitted(Err(m)) => {
                *state = CycleState::Finished;
                CycleAction::Finish(Err(CheckError::Network(m)))
            },
            CycleEvent::Submitted(Ok(r)) => {
                match current {
                    CycleState::AwaitingSubmission { requirement, payload, retries } => {
                        if r.status == 200 {
                            if self.verify_settlement {
                                *state = CycleState::AwaitingSettlement;
                                CycleAction::VerifySettlement {
                                    pay_to: requirement.pay_to,
                                    payment_id: payment_id_bytes("v2-nonce-tbd"),
                                }
                            } else {
                                *state = CycleState::Finished;
                                CycleAction::Finish(Ok(true))
                            }
                        } else if (r.status == 202 || r.status == 425) && r.elapsed_nanos
                            < self.settlement_timeout_nanos {
                            let retries = retries + 1;
                            let seconds = backoff(retries);
                            *state = CycleState::AwaitingWait { requirement, payload, retries };
                            CycleAction::Wait { seconds }
                        } else {
                            *state = CycleState::Finished;
                            CycleAction::Finish(Err(CheckError::SettlementFailure(r.status)))
                        }
                    },
                    _ => {
                        // `expects` rules this out.
                        *state = CycleState::Finished;
                        CycleAction::SendRequest
                    },
                }
            },
            CycleEvent::Waited => {
                match current {
                    CycleState::AwaitingWait { requirement, payload, retries } => {
                        let action = CycleAction::SubmitPayment { payload: payload.clone() };
                        *state = CycleState::AwaitingSubmission { requirement, payload, retries };
                        action
                    },
                    _ => {
                        // `expects` rules this out.
                        *state = CycleState::Finished;
                        CycleAction::SendRequest
                    },
                }
            },
            CycleEvent::SettlementChecked(answer) => {
                *state = CycleState::Finished;
                CycleAction::Finish(settlement_outcome(&answer))
            },
        }
    }
}

/// A step asks to finish exactly when it ends the cycle.
pub proof fn law_finish_ends_cycle(
    checker: Checker,
    state: CycleState,
    event: CycleEvent,
    next: CycleState,
    action: CycleAction,
)
    requires
        expects(state, event),
        checker.advances(state, event, next, action),
    ensures
        (action is Finish) <==> (next is Finished),
{
}

/// Every step keeps the cycle consistent: the payment phase is never
/// reached without a wallet.
pub proof fn law_consistency_preserved(
    checker: Checker,
    state: CycleState,
    event: CycleEvent,
    next: CycleState,
    action: CycleAction,
)
    requires
        checker.consistent(state),
        expects(state, event),
        checker.advances(state, event, next, action),
    ensures
        checker.consistent(next),
{
}

/// Without a wallet a check is a dry run: no step asks to sign a payment,
/// and none reports a full payment cycle.
pub proof fn law_dry_run_never_pays(
    checker: Checker,
    state: CycleState,
    event: CycleEvent,
    next: CycleState,
    action: CycleAction,
)
    requires
        checker.wallet_manager is None,
        checker.consistent(state),
        expects(state, event),
        checker.advances(state, event, next, action),
    ensures
        !(action is SignPayment),
        action != CycleAction::Finish(Ok(true)),
{
}

/// A full payment cycle is only reported after the endpoint answered a
/// signed payment with 200 OK: either right then, or once the on-chain
/// check has not found the payment unsettled.
pub proof fn law_full_cycle_needs_ok(
    checker: Checker,
    state: CycleState,
    event: CycleEvent,
    next: CycleState,
    action: CycleAction,
)
    requires
        expects(state, event),
        checker.advances(state, event, next, action),
        action == CycleAction::Finish(Ok(true)),
    ensures
        (event matches CycleEvent::Submitted(Ok(r)) && r.status == 200
            && !checker.verify_settlement) || (state is AwaitingSettlement && (event matches CycleEvent::SettlementChecked(answer) && answer != Ok::<bool, String>(false))),
{
}

/// A payment that the chain holds as not settled fails the check with
/// `VERIFICATION_FAILED`.
pub proof fn law_unsettled_payment_fails(
    checker: Checker,
    next: CycleState,
    action: CycleAction,
)
    requires
        checker.advances(
            CycleState::AwaitingSettlement,
            CycleEvent::SettlementChecked(Ok(false)),
            next,
            action,
        ),
    ensures
        action matches CycleAction::Finish(Err(e)) && e is VerificationFailed,
        next is Finished,
{
}

/// A payment is retried only when the endpoint answered "pending" (202 or
/// 425) within the settlement timeout.
pub proof fn law_retry_only_when_pending(
    checker: Checker,
    state: CycleState,
    event: CycleEvent,
    next: CycleState,
    action: CycleAction,
)
    requires
        expects(state, event),
        checker.advances(state, event, next, action),
        action is Wait,
    ensures
        event matches CycleEvent::Submitted(Ok(r)) && is_pending_status(r.status)
            && r.elapsed_nanos < checker.settlement_timeout_nanos,
{
}

/// The first request leads on to reading payment requirements only when
/// the endpoint answered 402 Payment Required with a `PAYMENT-REQUIRED`
/// header that is text, Base64, and UTF-8 once decoded.
pub proof fn law_requirements_come_from_a_402(
    checker: Checker,
    resp: HttpResponse,
    next: CycleState,
    action: CycleAction,
)
    requires
        checker.advances(
            CycleState::AwaitingResponse,
            CycleEvent::Responded(Ok(resp)),
            next,
            action,
        ),
        next is AwaitingParse,
    ensures
        resp.status == 402,
        resp.payment_required matches Some(h) && is_header_text(h@) && (base64_decoded(h@) matches Some(b)
            && valid_utf8(b)),
{
}

/// A dry run passes only on payment requirements of version 2 that accept
/// at least one way of paying.
pub proof fn law_dry_run_pass_needs_valid_requirements(
    checker: Checker,
    state: CycleState,
    event: CycleEvent,
    next: CycleState,
    action: CycleAction,
)
    requires
        expects(state, event),
        checker.advances(state, event, next, action),
        action == CycleAction::Finish(Ok(false)),
    ensures
        checker.wallet_manager is None,
        event matches CycleEvent::Parsed(Ok(resp)) && resp.x402_version == 2 && resp.accepts@.len() > 0,
{
}

/// The backoff between retries grows with the retries, from 2 seconds, and
/// stays at 8 seconds from the third retry on (never above 10).
pub proof fn law_backoff_grows(r1: u32, r2: u32)
    requires
        1 <= r1 <= r2,
    ensures
        2 <= backoff_seconds(r1) <= backoff_seconds(r2) <= 8,
        r1 >= 3 ==> backoff_seconds(r1) == 8,
{
    reveal_with_fuel(power_of_two, 4);
}

/// The signed payload that a submitting or waiting cycle carries.
pub open spec fn carried_payload(state: CycleState) -> Option<String> {
    match state {
        CycleState::AwaitingSubmission { payload, .. } => Some(payload),
        CycleState::AwaitingWait { payload, .. } => Some(payload),
        _ => None,
    }
}

/// A signed payment is submitted as it was signed: the signing step submits
/// exactly the signed payload and keeps it for later submissions.
pub proof fn law_signed_payload_is_submitted(
    checker: Checker,
    state: CycleState,
    payload: String,
    next: CycleState,
    action: CycleAction,
)
    requires
        expects(state, CycleEvent::Signed(Ok(payload))),
        checker.advances(state, CycleEvent::Signed(Ok(payload)), next, action),
    ensures
        action == (CycleAction::SubmitPayment { payload }),
        carried_payload(next) == Some(payload),
{
}

/// Every later step keeps the signed payload: a cycle that carries a payload
/// submits only that payload again (after each wait), and carries it on
/// while it keeps submitting or waiting.
pub proof fn law_resubmission_keeps_payload(
    checker: Checker,
    state: CycleState,
    event: CycleEvent,
    next: CycleState,
    action: CycleAction,
    payload: String,
)
    requires
        expects(state, event),
        checker.advances(state, event, next, action),
        carried_payload(state) == Some(payload),
    ensures
        action is SubmitPayment ==> action == (CycleAction::SubmitPayment { payload }),
        carried_payload(next) is Some ==> carried_payload(next) == Some(payload),
        state is AwaitingWait ==> action == (CycleAction::SubmitPayment { payload }),
{
}

/// Requirements of a version other than 2 fail the check with
/// `InvalidVersion`, with or without a wallet, and are never paid.
pub proof fn law_only_version_2_is_accepted(
    checker: Checker,
    state: CycleState,
    resp: PaymentRequiredResponse,
    next: CycleState,
    action: CycleAction,
)
    requires
        checker.advances(state, CycleEvent::Parsed(Ok(resp)), next, action),
    ensures
        resp.x402_version != 2 ==> action == CycleAction::Finish(
            Err(CheckError::InvalidVersion(resp.x402_version)),
        ),
        action is SignPayment ==> resp.x402_version == 2,
        (action matches CycleAction::Finish(Ok(_))) ==> resp.x402_version == 2,
{
}

/// A payment is signed only for the first requirement the server accepts,
/// and only when the wallet's USDC balance covers its amount; a balance that
/// does not cover it fails the check with `InsufficientFunds`, quoting that
/// amount and the balance.
pub proof fn law_pays_only_what_is_covered(
    checker: Checker,
    state: CycleState,
    resp: PaymentRequiredResponse,
    next: CycleState,
    action: CycleAction,
)
    requires
        checker.advances(state, CycleEvent::Parsed(Ok(resp)), next, action),
    ensures
        action matches CycleAction::SignPayment { requirement, resource } ==> {
            &&& resp.accepts@.len() > 0
            &&& requirement == resp.accepts@[0]
            &&& resource == resp.resource
            &&& checker.wallet_manager matches Some(wm) && covers(
                wm.spec_usdc_balance(),
                requirement.amount@,
            )
        },
        resp.x402_version == 2 && resp.accepts@.len() > 0 && (checker.wallet_manager matches Some(
            wm,
        ) && !covers(wm.spec_usdc_balance(), resp.accepts@[0].amount@)) ==> (
        action matches CycleAction::Finish(Err(CheckError::InsufficientFunds { required, available }))
            && required == resp.accepts@[0].amount && available@ == decimal(
            checker.wallet_manager->0.spec_usdc_balance(),
        )),
        resp.x402_version == 2 && resp.accepts@.len() > 0 && (checker.wallet_manager matches Some(
            wm,
        ) && covers(wm.spec_usdc_balance(), resp.accepts@[0].amount@)) ==> action is SignPayment,
{
}

/// Valid requirements (version 2, at least one way of paying) pass a dry run,
/// whatever else the object holds (such as its optional `error` text).
pub proof fn law_valid_requirements_pass_dry_run(
    checker: Checker,
    state: CycleState,
    resp: PaymentRequiredResponse,
    next: CycleState,
    action: CycleAction,
)
    requires
        checker.wallet_manager is None,
        resp.x402_version == 2,
        resp.accepts@.len() > 0,
        checker.advances(state, CycleEvent::Parsed(Ok(resp)), next, action),
    ensures
        action == CycleAction::Finish(Ok(false)),
        next is Finished,
{
}

/// Only a 200 OK to the signed payment leads on to the on-chain check; any
/// other answer that is not a pending one within the settlement timeout fails
/// the check with `SettlementFailure`, whether or not settlements are checked
/// on chain.
pub proof fn law_only_ok_reaches_settlement(
    checker: Checker,
    state: CycleState,
    event: CycleEvent,
    next: CycleState,
    action: CycleAction,
)
    requires
        expects(state, event),
        checker.advances(state, event, next, action),
    ensures
        action is VerifySettlement ==> (event matches CycleEvent::Submitted(Ok(r)) && r.status
            == 200 && checker.verify_settlement),
        (event matches CycleEvent::Submitted(Ok(r)) && r.status != 200 && !checker.retries_after(
            r,
        )) ==> action == CycleAction::Finish(
            Err(CheckError::SettlementFailure(event->Submitted_0->Ok_0.status)),
        ),
{
}

} // verus!
