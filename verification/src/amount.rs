//! Token amounts: unsigned 256-bit integers, held as the four 64-bit words
//! (least significant first) that `ethers::types::U256` stores.
use vstd::prelude::*;

use crate::text::{all_decimal_digits, decimal, decimal_value};

verus! {

/// 2^64, the base of one word.
pub open spec fn word_base() -> nat {
    0x1_0000_0000_0000_0000nat
}

/// 2^256, the first value that no amount reaches.
pub open spec fn amount_limit() -> nat {
    word_base() * word_base() * word_base() * word_base()
}

/// The number that four words denote, least significant word first.
pub open spec fn words_value(w: Seq<u64>) -> nat {
    (((w[3] as nat * word_base() + w[2] as nat) * word_base() + w[1] as nat) * word_base()
        + w[0] as nat)
}

/// An unsigned 256-bit amount (a token balance or a required payment).
#[derive(Debug, Clone, Copy)]
pub struct TokenAmount {
    /// The four 64-bit words, least significant first.
    pub limbs: [u64; 4],
}

impl View for TokenAmount {
    type V = nat;

    open spec fn view(&self) -> nat {
        words_value(self.limbs@)
    }
}

/// A larger leading part decides the order, whatever the next word holds.
proof fn lemma_leading_part_decides(x: nat, y: nat, a: nat, b: nat)
    requires
        x > y,
        a < word_base(),
        b < word_base(),
    ensures
        x * word_base() + a > y * word_base() + b,
{
    assert(x * word_base() >= (y + 1) * word_base()) by (nonlinear_arith)
        requires
            x >= y + 1,
    ;
    assert((y + 1) * word_base() == y * word_base() + word_base()) by (nonlinear_arith);
}

/// An amount is below 2^256.
pub proof fn lemma_amount_below_limit(w: Seq<u64>)
    requires
        w.len() == 4,
    ensures
        words_value(w) < amount_limit(),
{
    let b = word_base();
    let p3 = w[3] as nat;
    let p2 = p3 * b + w[2] as nat;
    let p1 = p2 * b + w[1] as nat;
    assert(p3 < b);
    assert(p2 < b * b) by {
        lemma_leading_part_decides(b, p3, 0, w[2] as nat);
        assert(b * b == b * b + 0);
    }
    assert(p1 < b * b * b) by {
        lemma_leading_part_decides(b * b, p2, 0, w[1] as nat);
    }
    assert(words_value(w) < b * b * b * b) by {
        lemma_leading_part_decides(b * b * b, p1, 0, w[0] as nat);
    }
}

impl TokenAmount {
    /// The amount 0.
    pub fn zero() -> (res: TokenAmount)
        ensures
            res@ == 0,
    {
        TokenAmount { limbs: [0, 0, 0, 0] }
    }

    /// Whether the amount is 0.
    pub fn is_zero(&self) -> (res: bool)
        ensures
            res == (self@ == 0),
    {
        let z = TokenAmount::zero();
        let above = self.at_least(&z);
        let below = z.at_least(self);
        above && below
    }

    /// Whether this amount is at least `other`.
    pub fn at_least(&self, other: &TokenAmount) -> (res: bool)
        ensures
            res == (self@ >= other@),
    {
        let a = self.limbs;
        let b = other.limbs;
        let ghost base = word_base();
        let ghost a3 = a[3] as nat;
        let ghost b3 = b[3] as nat;
        let ghost a2 = a3 * base + a[2] as nat;
        let ghost b2 = b3 * base + b[2] as nat;
        let ghost a1 = a2 * base + a[1] as nat;
        let ghost b1 = b2 * base + b[1] as nat;
        assert(self@ == a1 * base + a[0] as nat);
        assert(other@ == b1 * base + b[0] as nat);
        if a[3] != b[3] {
            proof {
                if a3 > b3 {
                    lemma_leading_part_decides(a3, b3, a[2] as nat, b[2] as nat);
                    lemma_leading_part_decides(a2, b2, a[1] as nat, b[1] as nat);
                    lemma_leading_part_decides(a1, b1, a[0] as nat, b[0] as nat);
                } else {
                    lemma_leading_part_decides(b3, a3, b[2] as nat, a[2] as nat);
                    lemma_leading_part_decides(b2, a2, b[1] as nat, a[1] as nat);
                    lemma_leading_part_decides(b1, a1, b[0] as nat, a[0] as nat);
                }
            }
            return a[3] > b[3];
        }
        if a[2] != b[2] {
            proof {
                if a[2] > b[2] {
                    lemma_leading_part_decides(a2, b2, a[1] as nat, b[1] as nat);
                    lemma_leading_part_decides(a1, b1, a[0] as nat, b[0] as nat);
                } else {
                    lemma_leading_part_decides(b2, a2, b[1] as nat, a[1] as nat);
                    lemma_leading_part_decides(b1, a1, b[0] as nat, a[0] as nat);
                }
            }
            return a[2] > b[2];
        }
        if a[1] != b[1] {
            proof {
                if a[1] > b[1] {
                    lemma_leading_part_decides(a1, b1, a[0] as nat, b[0] as nat);
                } else {
                    lemma_leading_part_decides(b1, a1, b[0] as nat, a[0] as nat);
                }
            }
            return a[1] > b[1];
        }
        a[0] >= b[0]
    }
}

/// Calls `U256::from_dec_str` of ethers. Its source reads the string byte by
/// byte: it fails on a byte that is not an ASCII digit and when the value
/// reaches 2^256, and otherwise returns the value (0 for the empty string).
#[verifier::external_body]
fn u256_from_dec_str(s: &str) -> (res: Option<TokenAmount>)
    ensures
        res.is_some() == (all_decimal_digits(s@) && decimal_value(s@) < amount_limit()),
        res matches Some(a) ==> a@ == decimal_value(s@),
{
    match ethers::types::U256::from_dec_str(s) {
        Ok(v) => Some(TokenAmount { limbs: v.0 }),
        Err(_) => None,
    }
}

/// Calls the `Display` of `U256` (ethers), which writes the value in decimal
/// without leading zeros ("0" for zero).
#[verifier::external_body]
fn u256_to_decimal(a: &TokenAmount) -> (res: String)
    ensures
        res@ == decimal(a@),
{
    ethers::types::U256(a.limbs).to_string()
}

/// Reads a decimal amount, as `U256::from_dec_str` does: only ASCII digits,
/// the empty string reads as 0, and values from 2^256 on are refused.
pub fn amount_from_decimal(s: &str) -> (res: Option<TokenAmount>)
    ensures
        res is Some <==> all_decimal_digits(s@) && decimal_value(s@) < amount_limit(),
        res matches Some(a) ==> a@ == decimal_value(s@),
{
    u256_from_dec_str(s)
}

/// Writes an amount in decimal, as `U256` displays it.
pub fn amount_to_decimal(a: &TokenAmount) -> (res: String)
    ensures
        res@ == decimal(a@),
{
    u256_to_decimal(a)
}

} // verus!
