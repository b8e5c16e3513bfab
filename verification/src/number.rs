//! Decimal notation for the integer fields of a record.

use vstd::prelude::*;

verus! {

/// Why a text is not the decimal notation of a number of the wanted type.
#[derive(Clone, Copy, Debug, PartialEq, Eq, Structural)]
pub enum NumberFault {
    /// The text is empty.
    Empty,
    /// The text is not an optional sign followed by one or more digits.
    InvalidDigit,
    /// The number is above the largest value of the type.
    TooLarge,
    /// The number is below the smallest value of the type.
    TooSmall,
}

/// Whether `c` is one of the ten ASCII digits.
pub open spec fn is_digit(c: char) -> bool {
    '0' <= c <= '9'
}

/// The number that the digit `c` stands for.
pub open spec fn digit_value(c: char) -> nat {
    (c as nat - '0' as nat) as nat
}

/// Whether `s` holds digits only.
pub open spec fn all_digits(s: Seq<char>) -> bool {
    forall|i: int| 0 <= i < s.len() ==> is_digit(#[trigger] s[i])
}

/// The number that the digits `s` denote in base ten; zero for no digits.
pub open spec fn decimal_value(s: Seq<char>) -> nat
    decreases s.len(),
{
    if s.len() == 0 {
        0
    } else {
        decimal_value(s.drop_last()) * 10 + digit_value(s.last())
    }
}

/// A longer run of digits never denotes a smaller number.
pub proof fn decimal_value_grows(s: Seq<char>, c: char)
    ensures
        decimal_value(s.push(c)) == decimal_value(s) * 10 + digit_value(c),
        decimal_value(s.push(c)) >= decimal_value(s),
{
    assert(s.push(c).drop_last() =~= s);
}

/// How many characters of `raw` are its sign: one where it opens with `+`,
/// or with `-` for a type that has negative values, else none.
pub open spec fn sign_len(raw: Seq<char>, signed: bool) -> int {
    if raw.len() > 0 && (raw[0] == '+' || (signed && raw[0] == '-')) {
        1
    } else {
        0
    }
}

/// What follows the sign of `raw`.
pub open spec fn digits_of(raw: Seq<char>, signed: bool) -> Seq<char> {
    raw.skip(sign_len(raw, signed))
}

/// Whether `raw` is an optional sign followed by one or more digits.
pub open spec fn is_decimal(raw: Seq<char>, signed: bool) -> bool {
    digits_of(raw, signed).len() > 0 && all_digits(digits_of(raw, signed))
}

/// The integer that `raw` denotes where `is_decimal` holds of it.
pub open spec fn integer_value(raw: Seq<char>, signed: bool) -> int {
    if signed && raw.len() > 0 && raw[0] == '-' {
        -(decimal_value(digits_of(raw, signed)) as int)
    } else {
        decimal_value(digits_of(raw, signed)) as int
    }
}

/// What reading `raw` as a `u32` gives: an optional `+`, then digits that
/// denote a number up to `u32::MAX`. A `-` is no part of the notation.
pub open spec fn unsigned_outcome(raw: Seq<char>) -> Result<u32, NumberFault> {
    if raw.len() == 0 {
        Err(NumberFault::Empty)
    } else if !is_decimal(raw, false) {
        Err(NumberFault::InvalidDigit)
    } else if integer_value(raw, false) > u32::MAX {
        Err(NumberFault::TooLarge)
    } else {
        Ok(integer_value(raw, false) as u32)
    }
}

/// What reading `raw` as an `i32` gives: an optional `+` or `-`, then digits
/// that denote a number from `i32::MIN` to `i32::MAX`.
pub open spec fn signed_outcome(raw: Seq<char>) -> Result<i32, NumberFault> {
    if raw.len() == 0 {
        Err(NumberFault::Empty)
    } else if !is_decimal(raw, true) {
        Err(NumberFault::InvalidDigit)
    } else if integer_value(raw, true) > i32::MAX {
        Err(NumberFault::TooLarge)
    } else if integer_value(raw, true) < i32::MIN {
        Err(NumberFault::TooSmall)
    } else {
        Ok(integer_value(raw, true) as i32)
    }
}

/// What a run of digits denotes, read up to a bound.
enum Magnitude {
    /// There is no digit, or a character that is none.
    Malformed,
    /// The digits denote more than the bound.
    Beyond,
    /// The digits denote this number, which is within the bound.
    Within(u64),
}

/// Reads `raw` as a run of digits up to `limit`, after its first character
/// where `after_sign` says that a sign stands there.
fn read_magnitude(raw: &str, after_sign: bool, limit: u64) -> (r: Magnitude)
    requires
        limit <= 0xffff_ffff,
        after_sign ==> raw@.len() > 0,
    ensures
        ({
            let digits = raw@.skip(if after_sign { 1 } else { 0 });
            let shaped = digits.len() > 0 && all_digits(digits);
            match r {
                Magnitude::Malformed => !shaped,
                Magnitude::Beyond => shaped && decimal_value(digits) > limit,
                Magnitude::Within(n) => shaped && decimal_value(digits) == n && n <= limit,
            }
        }),
{
    let mut acc: u64 = 0;
    let mut over: bool = false;
    let mut any: bool = false;
    let mut at_sign: bool = after_sign;
    let ghost from: int = if after_sign { 1 } else { 0 };
    for c in it: raw.chars()
        invariant
            it.seq() == raw@,
            limit <= 0xffff_ffff,
            after_sign ==> raw@.len() > 0,
            from == (if after_sign { 1int } else { 0int }),
            at_sign ==> after_sign && it.index() == 0 && acc == 0 && !over && !any,
            !at_sign ==> from <= it.index(),
            !at_sign ==> (any <==> from < it.index()),
            !at_sign ==> all_digits(raw@.subrange(from, it.index())),
            !at_sign && !over ==> acc == decimal_value(raw@.subrange(from, it.index())) && acc
                <= limit,
            !at_sign && over ==> decimal_value(raw@.subrange(from, it.index())) > limit,
    {
        if at_sign {
            at_sign = false;
            assert(raw@.subrange(1, 1) =~= Seq::<char>::empty());
        } else {
            let ghost before = raw@.subrange(from, it.index());
            assert(raw@.subrange(from, it.index() + 1) =~= before.push(c));
            proof {
                decimal_value_grows(before, c);
            }
            if c < '0' || c > '9' {
                assert(!is_digit(raw@.skip(from)[it.index() - from]));
                return Magnitude::Malformed;
            }
            any = true;
            if !over {
                let next: u64 = acc * 10 + ((c as u64) - ('0' as u64));
                if next > limit {
                    over = true;
                } else {
                    acc = next;
                }
            }
        }
    }
    assert(raw@.subrange(from, raw@.len() as int) =~= raw@.skip(from));
    if !any {
        Magnitude::Malformed
    } else if over {
        Magnitude::Beyond
    } else {
        Magnitude::Within(acc)
    }
}

/// Reads `raw` as a `u32` in decimal notation.
pub fn parse_unsigned(raw: &str) -> (r: Result<u32, NumberFault>)
    ensures
        r == unsigned_outcome(raw@),
{
    if raw.is_empty() {
        return Err(NumberFault::Empty);
    }
    let with_sign = raw.get_char(0) == '+';
    match read_magnitude(raw, with_sign, 0xffff_ffff) {
        Magnitude::Malformed => Err(NumberFault::InvalidDigit),
        Magnitude::Beyond => Err(NumberFault::TooLarge),
        Magnitude::Within(n) => Ok(n as u32),
    }
}

/// Reads `raw` as an `i32` in decimal notation.
pub fn parse_signed(raw: &str) -> (r: Result<i32, NumberFault>)
    ensures
        r == signed_outcome(raw@),
{
    if raw.is_empty() {
        return Err(NumberFault::Empty);
    }
    let first = raw.get_char(0);
    let negative = first == '-';
    let limit: u64 = if negative { 0x8000_0000 } else { 0x7fff_ffff };
    match read_magnitude(raw, negative || first == '+', limit) {
        Magnitude::Malformed => Err(NumberFault::InvalidDigit),
        Magnitude::Beyond => if negative {
            Err(NumberFault::TooSmall)
        } else {
            Err(NumberFault::TooLarge)
        },
        Magnitude::Within(n) => if negative {
            Ok((0 - (n as i64)) as i32)
        } else {
            Ok(n as i32)
        },
    }
}

} // verus!
