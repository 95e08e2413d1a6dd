//! The x402 v2 payment objects and the wallet's part in paying: funds,
//! the authorization that gets signed, and the payload that carries it.
use vstd::prelude::*;
use vstd::string::StringSliceAdditionalSpecFns;

use crate::amount::{amount_from_decimal, amount_limit, lemma_amount_below_limit, TokenAmount};
use crate::encoding::{base64_encode, base64_encoding, lower_hex, prefixed_hex};
use crate::text::{
    all_decimal_digits, decimal, decimal_value, lemma_decimal_round_trip, u64_to_decimal,
};

verus! {

broadcast use vstd::string::group_string_axioms;

/// A copy of an optional text.
fn copy_text(t: &Option<String>) -> (res: Option<String>)
    ensures
        res == *t,
{
    match t {
        Some(s) => Some(s.clone()),
        None => None,
    }
}

/// The resource a payment is for.
#[derive(Debug)]
pub struct ResourceInfo {
    pub url: String,
    pub description: Option<String>,
    pub mime_type: Option<String>,
}

impl Clone for ResourceInfo {
    fn clone(&self) -> (res: Self)
        ensures
            res == *self,
    {
        ResourceInfo {
            url: self.url.clone(),
            description: copy_text(&self.description),
            mime_type: copy_text(&self.mime_type),
        }
    }
}

/// One way of paying that a server accepts. `extra` holds the scheme's
/// extra data as JSON text.
#[derive(Debug)]
pub struct PaymentRequirements {
    pub scheme: String,
    pub network: String,
    pub amount: String,
    pub asset: String,
    pub pay_to: String,
    pub max_timeout_seconds: u64,
    pub extra: Option<String>,
}

impl Clone for PaymentRequirements {
    fn clone(&self) -> (res: Self)
        ensures
            res == *self,
    {
        PaymentRequirements {
            scheme: self.scheme.clone(),
            network: self.network.clone(),
            amount: self.amount.clone(),
            asset: self.asset.clone(),
            pay_to: self.pay_to.clone(),
            max_timeout_seconds: self.max_timeout_seconds,
            extra: copy_text(&self.extra),
        }
    }
}

/// The transfer that the payer authorizes: from, to, how much, the window
/// of validity (Unix seconds, in decimal) and a one-time nonce.
#[derive(Debug)]
pub struct Authorization {
    pub from: String,
    pub to: String,
    pub value: String,
    pub valid_after: String,
    pub valid_before: String,
    pub nonce: String,
}

impl Clone for Authorization {
    fn clone(&self) -> (res: Self)
        ensures
            res == *self,
    {
        Authorization {
            from: self.from.clone(),
            to: self.to.clone(),
            value: self.value.clone(),
            valid_after: self.valid_after.clone(),
            valid_before: self.valid_before.clone(),
            nonce: self.nonce.clone(),
        }
    }
}

/// The signed part of a payment.
#[derive(Debug)]
pub struct Payload {
    pub signature: String,
    pub authorization: Authorization,
}

impl Clone for Payload {
    fn clone(&self) -> (res: Self)
        ensures
            res == *self,
    {
        Payload { signature: self.signature.clone(), authorization: self.authorization.clone() }
    }
}

/// What the payer sends back in the `PAYMENT-SIGNATURE` header (as Base64
/// of its JSON). `extensions` holds JSON text.
#[derive(Debug)]
pub struct PaymentPayload {
    pub x402_version: u32,
    pub resource: Option<ResourceInfo>,
    pub accepted: PaymentRequirements,
    pub payload: Payload,
    pub extensions: String,
}

impl Clone for PaymentPayload {
    fn clone(&self) -> (res: Self)
        ensures
            res == *self,
    {
        PaymentPayload {
            x402_version: self.x402_version,
            resource: match &self.resource {
                Some(r) => Some(r.clone()),
                None => None,
            },
            accepted: self.accepted.clone(),
            payload: self.payload.clone(),
            extensions: self.extensions.clone(),
        }
    }
}

/// Whether a wallet with `balance` can pay `required` (a decimal amount):
/// the amount must read as a 256-bit number and not exceed the balance.
pub open spec fn covers(balance: nat, required: Seq<char>) -> bool {
    &&& all_decimal_digits(required)
    &&& decimal_value(required) < amount_limit()
    &&& balance >= decimal_value(required)
}

/// A balance read from chain.
#[derive(Debug, Clone, Copy)]
pub enum BalanceReading {
    /// The ETH balance, in wei (what gas is paid with).
    Eth(TokenAmount),
    /// The USDC balance, in the token's base units (what endpoints are paid with).
    Usdc(TokenAmount),
}

/// The payer's wallet: its address and the last balances read from chain.
#[derive(Debug, Clone, Copy)]
pub struct WalletManager {
    address: [u8; 20],
    eth_balance: TokenAmount,
    usdc_balance: TokenAmount,
}

/// `auth` is the authorization that the wallet at `address` signs to pay
/// `requirement` at Unix time `now` with `nonce`.
pub open spec fn authorizes(
    address: Seq<u8>,
    requirement: PaymentRequirements,
    now: u64,
    nonce: Seq<u8>,
    auth: Authorization,
) -> bool {
    &&& auth.from@ == "0x"@ + lower_hex(address)
    &&& auth.to == requirement.pay_to
    &&& auth.value == requirement.amount
    &&& auth.valid_after@ == decimal(now as nat)
    &&& auth.valid_before@ == decimal((now + requirement.max_timeout_seconds) as nat)
    &&& auth.nonce@ == "0x"@ + lower_hex(nonce)
}

/// The amount a reading carries.
pub open spec fn reading_value(reading: BalanceReading) -> nat {
    match reading {
        BalanceReading::Eth(a) => a@,
        BalanceReading::Usdc(a) => a@,
    }
}

/// `after` is `before` with `reading` recorded: the read balance replaced,
/// the address and the other balance kept.
pub open spec fn records(before: WalletManager, reading: BalanceReading, after: WalletManager) -> bool {
    &&& after.spec_address() == before.spec_address()
    &&& match reading {
        BalanceReading::Eth(a) => after.spec_eth_balance() == a@ && after.spec_usdc_balance()
            == before.spec_usdc_balance(),
        BalanceReading::Usdc(a) => after.spec_usdc_balance() == a@ && after.spec_eth_balance()
            == before.spec_eth_balance(),
    }
}

/// The USDC balance that a sequence of readings leaves recorded: the last
/// USDC reading, or 0 when there was none.
pub open spec fn last_usdc_reading(readings: Seq<BalanceReading>) -> nat
    decreases readings.len(),
{
    if readings.len() == 0 {
        0
    } else {
        match readings.last() {
            BalanceReading::Usdc(a) => a@,
            BalanceReading::Eth(_) => last_usdc_reading(readings.drop_last()),
        }
    }
}

/// The ETH balance that a sequence of readings leaves recorded: the last
/// ETH reading, or 0 when there was none.
pub open spec fn last_eth_reading(readings: Seq<BalanceReading>) -> nat
    decreases readings.len(),
{
    if readings.len() == 0 {
        0
    } else {
        match readings.last() {
            BalanceReading::Eth(a) => a@,
            BalanceReading::Usdc(_) => last_eth_reading(readings.drop_last()),
        }
    }
}

/// What `LocalWallet::from_str` (ethers) makes of a private key text: the
/// address of the key, or `None` where the text is not a key.
pub uninterp spec fn private_key_address(key: Seq<char>) -> Option<Seq<u8>>;

/// Calls `LocalWallet::from_str` and the wallet's `address`; the address is
/// named `private_key_address`, a function of the key text alone.
#[verifier::external_body]
fn address_of_private_key(key: &str) -> (res: Option<[u8; 20]>)
    ensures
        match res {
            Some(a) => private_key_address(key@) == Some(a@),
            None => private_key_address(key@) is None,
        },
{
    match <ethers::signers::LocalWallet as std::str::FromStr>::from_str(key) {
        Ok(w) => Some(ethers::signers::Signer::address(&w).0),
        Err(_) => None,
    }
}

/// The wallet of a private key, with no balance read yet; `None` where the
/// text is not a key.
pub fn wallet_from_private_key(private_key: &str) -> (res: Option<WalletManager>)
    ensures
        (res is Some) <==> (private_key_address(private_key@) is Some),
        res matches Some(w) ==> Some(w.spec_address()) == private_key_address(private_key@)
            && w.spec_eth_balance() == 0 && w.spec_usdc_balance() == 0,
{
    match address_of_private_key(private_key) {
        Some(address) => Some(WalletManager::new(address)),
        None => None,
    }
}

impl WalletManager {
    /// The wallet's address.
    pub closed spec fn spec_address(self) -> Seq<u8> {
        self.address@
    }

    /// The ETH balance last read, in wei.
    pub closed spec fn spec_eth_balance(self) -> nat {
        self.eth_balance@
    }

    /// The USDC balance last read, in the token's base units.
    pub closed spec fn spec_usdc_balance(self) -> nat {
        self.usdc_balance@
    }

    /// A wallet for an address, with no balance read yet (both zero).
    pub fn new(address: [u8; 20]) -> (res: WalletManager)
        ensures
            res.spec_address() == address@,
            res.spec_eth_balance() == 0,
            res.spec_usdc_balance() == 0,
    {
        WalletManager {
            address,
            eth_balance: TokenAmount::zero(),
            usdc_balance: TokenAmount::zero(),
        }
    }

    /// The wallet's address.
    pub fn address(&self) -> (res: [u8; 20])
        ensures
            res@ == self.spec_address(),
    {
        self.address
    }

    /// Records a balance read from chain and says whether it is zero (worth
    /// a warning). The other balance stays as it was.
    pub fn record_balance(&mut self, reading: BalanceReading) -> (is_zero: bool)
        ensures
            records(*old(self), reading, *final(self)),
            is_zero == (reading_value(reading) == 0),
    {
        match reading {
            BalanceReading::Eth(eth) => {
                self.eth_balance = eth;
                eth.is_zero()
            },
            BalanceReading::Usdc(usdc) => {
                self.usdc_balance = usdc;
                usdc.is_zero()
            },
        }
    }

    /// Whether the USDC balance covers a required amount, given in decimal.
    /// An amount that does not read as a 256-bit number is never covered.
    pub fn has_sufficient_funds(&self, required_amount: &str) -> (res: bool)
        ensures
            res == covers(self.spec_usdc_balance(), required_amount@),
    {
        match amount_from_decimal(required_amount) {
            Some(required) => self.usdc_balance.at_least(&required),
            None => false,
        }
    }

    /// The USDC balance last read.
    pub fn get_usdc_balance(&self) -> (res: TokenAmount)
        ensures
            res@ == self.spec_usdc_balance(),
    {
        self.usdc_balance
    }

    /// The ETH balance last read.
    pub fn get_eth_balance(&self) -> (res: TokenAmount)
        ensures
            res@ == self.spec_eth_balance(),
    {
        self.eth_balance
    }

    /// The authorization this wallet signs to pay `requirement`, issued at
    /// Unix time `now` with a 32-byte random `nonce`: from the wallet's
    /// address, to `pay_to`, the required amount, valid from `now` to
    /// `now + max_timeout_seconds`.
    pub fn payment_authorization(
        &self,
        requirement: &PaymentRequirements,
        now: u64,
        nonce: &[u8; 32],
    ) -> (res: Authorization)
        requires
            now + requirement.max_timeout_seconds <= u64::MAX,
        ensures
            authorizes(self.spec_address(), *requirement, now, nonce@, res),
    {
        let address = self.address;
        Authorization {
            from: prefixed_hex(address.as_slice()),
            to: requirement.pay_to.clone(),
            value: requirement.amount.clone(),
            valid_after: u64_to_decimal(now),
            valid_before: u64_to_decimal(now + requirement.max_timeout_seconds),
            nonce: prefixed_hex(nonce.as_slice()),
        }
    }
}

/// The x402 v2 payload for a signed authorization: version 2, the resource,
/// the accepted requirement, the signature (`0x` and the 65 signature bytes
/// in lower-case hex) and empty extensions (`{}`).
pub fn payment_payload(
    requirement: &PaymentRequirements,
    resource: Option<ResourceInfo>,
    authorization: Authorization,
    signature: &[u8; 65],
) -> (res: PaymentPayload)
    ensures
        res.x402_version == 2,
        res.resource == resource,
        res.accepted == *requirement,
        res.payload.authorization == authorization,
        res.payload.signature@ == "0x"@ + lower_hex(signature@),
        res.extensions@ == "{}"@,
{
    PaymentPayload {
        x402_version: 2,
        resource,
        accepted: requirement.clone(),
        payload: Payload { signature: prefixed_hex(signature.as_slice()), authorization },
        extensions: String::from_str("{}"),
    }
}

/// The value of the `PAYMENT-SIGNATURE` header for a payload's JSON: its
/// UTF-8 bytes in standard Base64.
pub fn encode_payment_payload(json: &str) -> (res: String)
    requires
        json.spec_bytes().len() <= isize::MAX,
    ensures
        res@ == base64_encoding(json.spec_bytes()),
{
    base64_encode(json.as_bytes())
}

/// The 32-byte id under which a payment is looked up on chain: the id's
/// UTF-8 bytes, cut to 32 and padded with zeros.
pub open spec fn payment_id_word(id: Seq<u8>) -> Seq<u8> {
    Seq::new(32, |i: int| if i < id.len() { id[i] } else { 0u8 })
}

/// The 32-byte on-chain id of a payment id.
pub fn payment_id_bytes(payment_id: &str) -> (res: [u8; 32])
    ensures
        res@ == payment_id_word(payment_id.spec_bytes()),
{
    let id = payment_id.as_bytes();
    let mut bytes = [0u8; 32];
    let len = if id.len() < 32 {
        id.len()
    } else {
        32
    };
    let mut i: usize = 0;
    while i < len
        invariant
            len <= 32,
            len <= id@.len(),
            id@ == payment_id.spec_bytes(),
            i <= len,
            bytes@.len() == 32,
            forall|j: int| 0 <= j < i ==> bytes@[j] == id@[j],
            forall|j: int| i <= j < 32 ==> bytes@[j] == 0,
        decreases len - i,
    {
        bytes.set(i, id[i]);
        i = i + 1;
    }
    assert(bytes@ =~= payment_id_word(id@));
    bytes
}

/// An authorization is valid for exactly the requirement's timeout: its
/// bounds read as numbers `max_timeout_seconds` apart.
pub proof fn law_validity_window(
    address: Seq<u8>,
    requirement: PaymentRequirements,
    now: u64,
    nonce: Seq<u8>,
    auth: Authorization,
)
    requires
        authorizes(address, requirement, now, nonce, auth),
        now + requirement.max_timeout_seconds <= u64::MAX,
    ensures
        all_decimal_digits(auth.valid_after@),
        all_decimal_digits(auth.valid_before@),
        decimal_value(auth.valid_before@) == decimal_value(auth.valid_after@)
            + requirement.max_timeout_seconds,
{
    lemma_decimal_round_trip(now as nat);
    lemma_decimal_round_trip((now + requirement.max_timeout_seconds) as nat);
}

/// A wallet's balances are the last ones read: after any sequence of
/// readings recorded into a new wallet, the USDC balance is the last USDC
/// reading and the ETH balance the last ETH reading (0 where there was none).
pub proof fn law_balances_are_last_read(
    wallets: Seq<WalletManager>,
    readings: Seq<BalanceReading>,
)
    requires
        wallets.len() == readings.len() + 1,
        wallets[0].spec_eth_balance() == 0,
        wallets[0].spec_usdc_balance() == 0,
        forall|i: int|
            0 <= i < readings.len() ==> records(#[trigger] wallets[i], readings[i], wallets[i + 1]),
    ensures
        wallets.last().spec_usdc_balance() == last_usdc_reading(readings),
        wallets.last().spec_eth_balance() == last_eth_reading(readings),
        wallets.last().spec_address() == wallets[0].spec_address(),
    decreases readings.len(),
{
    if readings.len() > 0 {
        let n = readings.len() as int;
        law_balances_are_last_read(wallets.drop_last(), readings.drop_last());
        assert(records(wallets[n - 1], readings[n - 1], wallets[n]));
        assert(wallets.drop_last().last() == wallets[n - 1]);
    }
}

/// A balance that covers an amount keeps covering it as it grows.
pub proof fn law_more_funds_still_cover(smaller: nat, larger: nat, required: Seq<char>)
    requires
        covers(smaller, required),
        smaller <= larger,
    ensures
        covers(larger, required),
{
}

/// The available balance that a report quotes reads back as the balance.
pub proof fn law_quoted_balance_reads_back(balance: TokenAmount)
    ensures
        covers(balance@, decimal(balance@)),
        decimal_value(decimal(balance@)) == balance@,
{
    lemma_decimal_round_trip(balance@);
    lemma_amount_below_limit(balance.limbs@);
}

} // verus!
