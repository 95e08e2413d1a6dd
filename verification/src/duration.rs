//! Durations written as a number and a unit: `5s`, `10m`, `1h`, or a bare
//! number of seconds.
use vstd::prelude::*;

use crate::text::{
    all_decimal_digits, ascii_lower_char, chars_equal, chars_of, decimal, decimal_value,
    digits_of, is_ascii_char, is_ascii_text, is_decimal_digit, is_unicode_whitespace,
    lemma_decimal_round_trip, lowercased, non_digits_of, string_of_chars, to_lowercase,
    trim_chars, trim_end, trim_start, trimmed,
};

verus! {

broadcast use vstd::string::group_string_axioms;

/// The unit that follows the number of a duration.
#[derive(Debug, Clone, Copy, PartialEq, Eq, Structural)]
pub enum TimeUnit {
    Seconds,
    Minutes,
    Hours,
}

impl TimeUnit {
    /// How many seconds one of this unit lasts.
    pub open spec fn spec_seconds(self) -> nat {
        match self {
            TimeUnit::Seconds => 1,
            TimeUnit::Minutes => 60,
            TimeUnit::Hours => 3600,
        }
    }

    /// How many seconds one of this unit lasts.
    pub fn seconds(&self) -> (res: u64)
        ensures
            res == self.spec_seconds(),
    {
        match self {
            TimeUnit::Seconds => 1,
            TimeUnit::Minutes => 60,
            TimeUnit::Hours => 3600,
        }
    }
}

/// The unit that a lower-cased unit text names once whitespace is trimmed
/// from both ends: nothing or `s` is seconds, `m` minutes, `h` hours.
pub open spec fn unit_named(lower: Seq<char>) -> Option<TimeUnit> {
    let t = trimmed(lower);
    if t.len() == 0 || t == seq!['s'] {
        Some(TimeUnit::Seconds)
    } else if t == seq!['m'] {
        Some(TimeUnit::Minutes)
    } else if t == seq!['h'] {
        Some(TimeUnit::Hours)
    } else {
        None
    }
}

/// Why a duration text was refused.
#[derive(Debug, Clone, Copy, PartialEq, Eq, Structural)]
pub enum DurationFault {
    /// The text holds no digit.
    InvalidFormat,
    /// The digits denote a number above `u64::MAX`.
    NumberTooLarge,
    /// What is not a digit names no unit.
    InvalidUnit,
}

/// A refused duration text, with the text that the message quotes.
#[derive(Debug, Clone, PartialEq, Eq)]
pub enum DurationError {
    /// The whole input, which holds no digit.
    InvalidFormat(String),
    /// The number does not fit in 64 bits.
    NumberTooLarge,
    /// The unit as written (every non-digit character, in order).
    InvalidUnit(String),
}

/// How a duration text reads: its number and unit, or why it is refused.
/// The digits of the text, wherever they stand, form the number; the other
/// characters, lower-cased (letter by letter where they are ASCII), form
/// the unit.
pub open spec fn duration_syntax(s: Seq<char>) -> Result<(u64, TimeUnit), DurationFault> {
    let digits = digits_of(s);
    if digits.len() == 0 {
        Err(DurationFault::InvalidFormat)
    } else if decimal_value(digits) > u64::MAX {
        Err(DurationFault::NumberTooLarge)
    } else {
        match unit_named(lowercased(non_digits_of(s))) {
            Some(u) => Ok((decimal_value(digits) as u64, u)),
            None => Err(DurationFault::InvalidUnit),
        }
    }
}

/// The number of seconds of a readable duration fits in 64 bits.
pub open spec fn duration_fits(s: Seq<char>) -> bool {
    match duration_syntax(s) {
        Ok((v, u)) => v * u.spec_seconds() <= u64::MAX,
        Err(_) => true,
    }
}

/// `res` is what reading `s` as a duration in seconds gives.
pub open spec fn duration_reported(s: Seq<char>, res: Result<u64, DurationError>) -> bool {
    match res {
        Ok(secs) => duration_syntax(s) matches Ok((v, u)) && secs == v * u.spec_seconds(),
        Err(e) => duration_syntax(s) == Err::<(u64, TimeUnit), DurationFault>(e.fault())
            && e.quotes(s),
    }
}

impl DurationError {
    /// The kind of refusal.
    pub open spec fn fault(self) -> DurationFault {
        match self {
            DurationError::InvalidFormat(_) => DurationFault::InvalidFormat,
            DurationError::NumberTooLarge => DurationFault::NumberTooLarge,
            DurationError::InvalidUnit(_) => DurationFault::InvalidUnit,
        }
    }

    /// The error quotes the right part of the refused text `s`.
    pub open spec fn quotes(self, s: Seq<char>) -> bool {
        match self {
            DurationError::InvalidFormat(t) => t@ == s,
            DurationError::NumberTooLarge => true,
            DurationError::InvalidUnit(u) => u@ == non_digits_of(s),
        }
    }

    /// The text of the error.
    pub open spec fn spec_message(self) -> Seq<char> {
        match self {
            DurationError::InvalidFormat(t) => "Invalid duration format: "@ + t@,
            DurationError::NumberTooLarge => "number too large to fit in target type"@,
            DurationError::InvalidUnit(u) => "Invalid duration unit: "@ + u@
                + ". Use s, m, or h."@,
        }
    }

    /// The text of the error, as the command line reports it.
    pub fn message(&self) -> (res: String)
        ensures
            res@ == self.spec_message(),
    {
        match self {
            DurationError::InvalidFormat(t) => {
                let mut res = String::from_str("Invalid duration format: ");
                res.append(t.as_str());
                res
            },
            DurationError::NumberTooLarge => String::from_str(
                "number too large to fit in target type",
            ),
            DurationError::InvalidUnit(u) => {
                let mut res = String::from_str("Invalid duration unit: ");
                res.append(u.as_str());
                res.append(". Use s, m, or h.");
                res
            },
        }
    }
}

/// The digits of `s` and its other characters, each in order.
fn split_digits(s: &Vec<char>) -> (res: (Vec<char>, Vec<char>))
    ensures
        res.0@ == digits_of(s@),
        res.1@ == non_digits_of(s@),
{
    let mut digits: Vec<char> = Vec::new();
    let mut rest: Vec<char> = Vec::new();
    let mut i: usize = 0;
    assert(s@.subrange(0, 0) =~= Seq::<char>::empty());
    while i < s.len()
        invariant
            i <= s@.len(),
            digits@ == digits_of(s@.subrange(0, i as int)),
            rest@ == non_digits_of(s@.subrange(0, i as int)),
        decreases s.len() - i,
    {
        let c = s[i];
        assert(s@.subrange(0, i + 1).drop_last() =~= s@.subrange(0, i as int));
        assert(s@.subrange(0, i + 1).last() == c);
        if '0' <= c && c <= '9' {
            digits.push(c);
        } else {
            rest.push(c);
        }
        i = i + 1;
    }
    assert(s@.subrange(0, s@.len() as int) =~= s@);
    (digits, rest)
}

/// Every character that `digits_of` keeps is a digit.
proof fn lemma_digits_are_digits(s: Seq<char>)
    ensures
        all_decimal_digits(digits_of(s)),
    decreases s.len(),
{
    if s.len() > 0 {
        lemma_digits_are_digits(s.drop_last());
        let d = digits_of(s);
        let p = digits_of(s.drop_last());
        if is_decimal_digit(s.last()) {
            assert forall|i: int| 0 <= i < d.len() implies is_decimal_digit(#[trigger] d[i]) by {
                if i < p.len() {
                    assert(d[i] == p[i]);
                }
            }
        }
    }
}

/// The value of a string of digits, if it fits in 64 bits (`str::parse::<u64>`
/// on digits alone).
pub fn decimal_to_u64(digits: &Vec<char>) -> (res: Option<u64>)
    requires
        all_decimal_digits(digits@),
    ensures
        match res {
            Some(v) => v == decimal_value(digits@),
            None => decimal_value(digits@) > u64::MAX,
        },
{
    let mut acc: Option<u64> = Some(0);
    let mut i: usize = 0;
    assert(digits@.subrange(0, 0) =~= Seq::<char>::empty());
    while i < digits.len()
        invariant
            i <= digits@.len(),
            all_decimal_digits(digits@),
            match acc {
                Some(v) => v == decimal_value(digits@.subrange(0, i as int)),
                None => decimal_value(digits@.subrange(0, i as int)) > u64::MAX,
            },
        decreases digits.len() - i,
    {
        let c = digits[i];
        assert(is_decimal_digit(digits@[i as int]));
        let ghost prefix = digits@.subrange(0, i + 1);
        assert(prefix.drop_last() =~= digits@.subrange(0, i as int));
        assert(prefix.last() == c);
        let d = (c as u32 - '0' as u32) as u64;
        acc = match acc {
            Some(v) => match v.checked_mul(10) {
                Some(t) => t.checked_add(d),
                None => None,
            },
            None => None,
        };
        i = i + 1;
    }
    assert(digits@.subrange(0, digits@.len() as int) =~= digits@);
    acc
}

/// The unit that a lower-cased unit text names (see `unit_named`).
pub fn unit_from_lowercase(lower: &str) -> (res: Option<TimeUnit>)
    ensures
        res == unit_named(lower@),
{
    proof {
        reveal_strlit("s");
        reveal_strlit("m");
        reveal_strlit("h");
        assert("s"@ =~= seq!['s']);
        assert("m"@ =~= seq!['m']);
        assert("h"@ =~= seq!['h']);
    }
    let cs = chars_of(lower);
    let t = trim_chars(&cs);
    if t.len() == 0 || chars_equal(&t, "s") {
        Some(TimeUnit::Seconds)
    } else if chars_equal(&t, "m") {
        Some(TimeUnit::Minutes)
    } else if chars_equal(&t, "h") {
        Some(TimeUnit::Hours)
    } else {
        None
    }
}

/// Reads a duration text as a number and a unit, without converting to
/// seconds (see `duration_syntax`).
pub fn parse_duration_parts(s: &str) -> (res: Result<(u64, TimeUnit), DurationError>)
    ensures
        match res {
            Ok(p) => duration_syntax(s@) == Ok::<(u64, TimeUnit), DurationFault>(p),
            Err(e) => duration_syntax(s@) == Err::<(u64, TimeUnit), DurationFault>(e.fault())
                && e.quotes(s@),
        },
{
    let cs = chars_of(s);
    let (digits, rest) = split_digits(&cs);
    if digits.len() == 0 {
        return Err(DurationError::InvalidFormat(String::from_str(s)));
    }
    proof {
        lemma_digits_are_digits(s@);
    }
    let num = match decimal_to_u64(&digits) {
        Some(v) => v,
        None => return Err(DurationError::NumberTooLarge),
    };
    let unit_text = string_of_chars(&rest);
    let lower = to_lowercase(unit_text.as_str());
    match unit_from_lowercase(lower.as_str()) {
        Some(u) => Ok((num, u)),
        None => Err(DurationError::InvalidUnit(unit_text)),
    }
}

/// Reads a duration text (`5s`, `10m`, `1h`, `30`) as a number of seconds.
/// The caller guarantees that the seconds fit in 64 bits; `try_parse_duration`
/// checks that first.
pub fn parse_duration(s: &str) -> (res: Result<u64, DurationError>)
    requires
        duration_fits(s@),
    ensures
        duration_reported(s@, res),
{
    match parse_duration_parts(s) {
        Ok((v, u)) => {
            let per = u.seconds();
            assert(v * per <= u64::MAX);
            Ok(v * per)
        },
        Err(e) => Err(e),
    }
}

/// `parse_duration`, where the seconds fit in 64 bits; `None` where they do not.
pub fn try_parse_duration(s: &str) -> (res: Option<Result<u64, DurationError>>)
    ensures
        res is None <==> !duration_fits(s@),
        res matches Some(r) ==> duration_reported(s@, r),
{
    match parse_duration_parts(s) {
        Ok((v, u)) => {
            let per = u.seconds();
            match v.checked_mul(per) {
                Some(_) => Some(parse_duration(s)),
                None => None,
            }
        },
        Err(_) => Some(parse_duration(s)),
    }
}

/// A string of digits only keeps all its characters as digits and has no unit.
proof fn lemma_digits_only(s: Seq<char>)
    requires
        all_decimal_digits(s),
    ensures
        digits_of(s) == s,
        non_digits_of(s) == Seq::<char>::empty(),
    decreases s.len(),
{
    if s.len() > 0 {
        assert(is_decimal_digit(s[s.len() - 1]));
        lemma_digits_only(s.drop_last());
        assert(s.drop_last().push(s.last()) =~= s);
    }
}

/// A unit letter on its own names its unit.
proof fn lemma_unit_letter(c: char)
    requires
        c == 's' || c == 'm' || c == 'h',
    ensures
        trimmed(seq![c]) == seq![c],
{
    let t = seq![c];
    assert(!is_unicode_whitespace(c));
    assert(trim_start(t) == t);
    assert(t.last() == c);
    assert(trim_end(t) == t);
}

/// A unit letter, in either case, lower-cases to its small letter.
proof fn lemma_unit_letter_lowered(c: char, small: char)
    requires
        (c == 's' || c == 'S') && small == 's' || (c == 'm' || c == 'M') && small == 'm' || (c
            == 'h' || c == 'H') && small == 'h',
    ensures
        lowercased(seq![c]) == seq![small],
{
    let t = seq![c];
    assert(is_ascii_char(t[0]));
    assert(ascii_lower_char(c) == small);
    assert(t.map_values(|x: char| ascii_lower_char(x)) =~= seq![small]);
}

/// The unit of a number written with the unit letter `c`.
pub open spec fn unit_of_letter(c: char) -> TimeUnit {
    if c == 's' || c == 'S' {
        TimeUnit::Seconds
    } else if c == 'm' || c == 'M' {
        TimeUnit::Minutes
    } else {
        TimeUnit::Hours
    }
}

/// A unit letter, in either case.
pub open spec fn is_unit_letter(c: char) -> bool {
    c == 's' || c == 'S' || c == 'm' || c == 'M' || c == 'h' || c == 'H'
}

/// How a number in decimal reads with each unit: no unit or `s` gives that
/// many seconds, `m` sixty times as many, `h` 3600 times as many, and the
/// letters may be capitals.
pub proof fn law_units_scale(n: u64, c: char)
    requires
        is_unit_letter(c),
    ensures
        duration_syntax(decimal(n as nat)) == Ok::<(u64, TimeUnit), DurationFault>(
            (n, TimeUnit::Seconds),
        ),
        duration_syntax(decimal(n as nat).push(c)) == Ok::<(u64, TimeUnit), DurationFault>(
            (n, unit_of_letter(c)),
        ),
        duration_reported(decimal(n as nat), Ok(n)),
        n * unit_of_letter(c).spec_seconds() <= u64::MAX ==> duration_reported(
            decimal(n as nat).push(c),
            Ok((n * unit_of_letter(c).spec_seconds()) as u64),
        ),
{
    let d = decimal(n as nat);
    lemma_decimal_round_trip(n as nat);
    lemma_digits_only(d);
    assert(is_ascii_text(Seq::<char>::empty()));
    assert(Seq::<char>::empty().map_values(|x: char| ascii_lower_char(x)) =~= Seq::<char>::empty());
    assert(trimmed(Seq::<char>::empty()) == Seq::<char>::empty());
    assert(duration_syntax(d) == Ok::<(u64, TimeUnit), DurationFault>((n, TimeUnit::Seconds)));
    let small = if c == 's' || c == 'S' {
        's'
    } else if c == 'm' || c == 'M' {
        'm'
    } else {
        'h'
    };
    let s = d.push(c);
    assert(s.drop_last() =~= d);
    assert(s.last() == c);
    assert(!is_decimal_digit(c));
    assert(digits_of(s) == d);
    assert(non_digits_of(s) == seq![c]) by {
        assert(Seq::<char>::empty().push(c) =~= seq![c]);
    }
    lemma_unit_letter_lowered(c, small);
    lemma_unit_letter(small);
}

} // verus!
