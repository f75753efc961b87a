//! Functions on integers: `add`, `sub`, `mul` and `div` for each width.
//!
//! Each function takes any number of arguments, reads every one of them as
//! an integer of its type, and works them off from left to right, starting
//! from zero: `add` gives their sum and `sub` zero less each of them; `mul`
//! and `div` start from zero as well. The result is the decimal text of the
//! number. An argument that is no integer of the type is an error, and so is
//! a step that leaves the range of the type or divides by zero.

use vstd::prelude::*;
use vstd::string::*;
use vstd::utf8::*;

use crate::builtin::text::func_result_view;
use crate::decimal::{append_decimal, decimal};
use crate::parser::grammar::{in_class, ByteClass};
use crate::render::texts;
use crate::template::function::{FuncResult, FunctionError, FunctionErrorView};

verus! {

/// What a function on integers does with each argument.
pub enum Operation {
    Add,
    Sub,
    Mul,
    Div,
}

/// The least and the greatest number of an integer type.
pub struct Range {
    pub min: int,
    pub max: int,
}

pub const PLUS: u8 = 0x2b;

pub const MINUS: u8 = 0x2d;

/// The number that the decimal digits `digits` spell.
pub open spec fn digits_value(digits: Seq<u8>) -> nat
    decreases digits.len(),
{
    if digits.len() == 0 {
        0
    } else {
        digits_value(digits.drop_last()) * 10 + (digits.last() - 0x30) as nat
    }
}

/// Whether `digits` holds at least one byte and decimal digits only.
pub open spec fn all_digits(digits: Seq<u8>) -> bool {
    digits.len() > 0 && forall|i: int|
        0 <= i < digits.len() ==> in_class(ByteClass::Digit, #[trigger] digits[i])
}

/// The number that `digits` spell, where they are decimal digits and the
/// number is at most `limit`.
pub open spec fn magnitude(digits: Seq<u8>, limit: nat) -> Option<nat> {
    if all_digits(digits) && digits_value(digits) <= limit {
        Some(digits_value(digits))
    } else {
        None
    }
}

/// Whether the first byte of `bytes` is a sign that a type with `range`
/// takes: `+`, or `-` where the type has negative numbers.
pub open spec fn has_sign(bytes: Seq<u8>, range: Range) -> bool {
    bytes.len() > 0 && (bytes[0] == PLUS || (bytes[0] == MINUS && range.min < 0))
}

/// The integer that `bytes` spell for a type with `range`: a sign, if any,
/// and at least one decimal digit, with a value inside the range.
pub open spec fn integer_of(bytes: Seq<u8>, range: Range) -> Option<int> {
    let digits = if has_sign(bytes, range) {
        bytes.drop_first()
    } else {
        bytes
    };
    let value = if has_sign(bytes, range) && bytes[0] == MINUS {
        -(digits_value(digits) as int)
    } else {
        digits_value(digits) as int
    };
    if all_digits(digits) && range.min <= value <= range.max {
        Some(value)
    } else {
        None
    }
}

/// The integer that the text `text` spells for a type with `range`.
pub open spec fn integer_of_text(text: Seq<char>, range: Range) -> Option<int> {
    integer_of(encode_utf8(text), range)
}

/// The quotient of `x` by `d`, rounded towards zero.
pub open spec fn quotient(x: int, d: int) -> int {
    if x >= 0 && d > 0 {
        x / d
    } else if x < 0 && d < 0 {
        (-x) / (-d)
    } else if x < 0 {
        -((-x) / d)
    } else {
        -(x / (-d))
    }
}

/// Why a step failed, in words.
pub open spec fn failure(operation: Operation, zero: bool) -> Seq<char> {
    match operation {
        Operation::Add => "attempt to add with overflow"@,
        Operation::Sub => "attempt to subtract with overflow"@,
        Operation::Mul => "attempt to multiply with overflow"@,
        Operation::Div => if zero {
            "attempt to divide by zero"@
        } else {
            "attempt to divide with overflow"@
        },
    }
}

/// One step: `so_far` and `value` under `operation`, or why the step fails.
pub open spec fn step(operation: Operation, so_far: int, value: int, range: Range) -> Result<
    int,
    Seq<char>,
> {
    let next = match operation {
        Operation::Add => so_far + value,
        Operation::Sub => so_far - value,
        Operation::Mul => so_far * value,
        Operation::Div => quotient(so_far, value),
    };
    if operation is Div && value == 0 {
        Err(failure(operation, true))
    } else if range.min <= next <= range.max {
        Ok(next)
    } else {
        Err(failure(operation, false))
    }
}

/// All steps from zero on, over `values` from left to right, or why the
/// first step that fails does so.
pub open spec fn folded(operation: Operation, values: Seq<int>, range: Range) -> Result<
    int,
    Seq<char>,
>
    decreases values.len(),
{
    if values.len() == 0 {
        Ok(0)
    } else {
        match folded(operation, values.drop_last(), range) {
            Ok(so_far) => step(operation, so_far, values.last(), range),
            Err(why) => Err(why),
        }
    }
}

/// The index of the first of `args` that is no integer of the type.
pub open spec fn first_unread(args: Seq<Seq<char>>, range: Range) -> Option<int>
    decreases args.len(),
{
    if args.len() == 0 {
        None
    } else {
        match first_unread(args.drop_last(), range) {
            Some(index) => Some(index),
            None => if integer_of_text(args.last(), range) is None {
                Some(args.len() - 1)
            } else {
                None
            },
        }
    }
}

/// The integers that `args` spell, in order.
pub open spec fn integers(args: Seq<Seq<char>>, range: Range) -> Seq<int> {
    Seq::new(args.len(), |i: int| integer_of_text(args[i], range)->Some_0)
}

/// `value` as decimal text, with `-` before a negative number.
pub open spec fn integer_text(value: int) -> Seq<char> {
    if value < 0 {
        "-"@ + decimal((-value) as nat)
    } else {
        decimal(value as nat)
    }
}

/// What a function on integers returns for `args`: the error that holds the
/// first argument that is no integer of the type; else the decimal text of
/// what the steps give, or the error of the step that fails.
pub open spec fn arithmetic(operation: Operation, args: Seq<Seq<char>>, range: Range) -> Result<
    Seq<char>,
    FunctionErrorView,
> {
    match first_unread(args, range) {
        Some(index) => Err(FunctionErrorView::InvalidType(args[index])),
        None => match folded(operation, integers(args, range), range) {
            Ok(value) => Ok(integer_text(value)),
            Err(why) => Err(FunctionErrorView::RuntimeError(why)),
        },
    }
}

/// A longer run of digits spells no smaller number.
proof fn lemma_digits_grow(digits: Seq<u8>, len: int)
    requires
        0 <= len <= digits.len(),
    ensures
        digits_value(digits.take(len)) <= digits_value(digits),
    decreases digits.len() - len,
{
    if len < digits.len() {
        assert(digits.take(len + 1).drop_last() =~= digits.take(len));
        lemma_digits_grow(digits, len + 1);
    } else {
        assert(digits.take(len) =~= digits);
    }
}

/// The number that the bytes from `start` on spell, where they are decimal
/// digits and the number is at most `limit`.
fn read_magnitude(bytes: &[u8], start: usize, limit: u128) -> (value: Option<u128>)
    requires
        start <= bytes@.len(),
    ensures
        match magnitude(bytes@.subrange(start as int, bytes@.len() as int), limit as nat) {
            Some(number) => value == Some(number as u128),
            None => value is None,
        },
{
    let ghost digits = bytes@.subrange(start as int, bytes@.len() as int);
    if start == bytes.len() {
        return None;
    }
    let mut number: u128 = 0;
    let mut index: usize = start;
    proof {
        assert(digits.take(0) =~= Seq::<u8>::empty());
    }
    while index < bytes.len()
        invariant
            start <= index <= bytes@.len(),
            digits == bytes@.subrange(start as int, bytes@.len() as int),
            digits.len() > 0,
            forall|i: int| 0 <= i < index - start ==> in_class(ByteClass::Digit, #[trigger] digits[i]),
            number == digits_value(digits.take(index - start)),
            number <= limit,
        decreases bytes@.len() - index,
    {
        let byte = bytes[index];
        if byte < 0x30 || byte > 0x39 {
            assert(!in_class(ByteClass::Digit, digits[index - start]));
            return None;
        }
        let digit = (byte - 0x30) as u128;
        proof {
            assert(digits.take(index - start + 1).drop_last() =~= digits.take(index - start));
            assert(digits.take(index - start + 1).last() == byte);
            lemma_digits_grow(digits, index - start + 1);
        }
        if digit > limit || number > (limit - digit) / 10 {
            return None;
        }
        number = number * 10 + digit;
        index = index + 1;
    }
    proof {
        assert(digits.take(index - start) =~= digits);
    }
    Some(number)
}

/// The integer of an unsigned type that `text` spells.
fn read_unsigned(text: &str, max: u128) -> (value: Option<u128>)
    ensures
        match integer_of_text(text@, Range { min: 0, max: max as int }) {
            Some(number) => value == Some(number as u128),
            None => value is None,
        },
{
    let bytes = text.as_bytes();
    let start: usize = if bytes.len() > 0 && bytes[0] == PLUS {
        1
    } else {
        0
    };
    proof {
        if start == 1 {
            assert(bytes@.drop_first() =~= bytes@.subrange(1, bytes@.len() as int));
        } else {
            assert(bytes@ =~= bytes@.subrange(0, bytes@.len() as int));
        }
    }
    read_magnitude(bytes, start, max)
}

/// The integer of a signed type that `text` spells.
fn read_signed(text: &str, min: i128, max: i128) -> (value: Option<i128>)
    requires
        min < 0 <= max,
    ensures
        match integer_of_text(text@, Range { min: min as int, max: max as int }) {
            Some(number) => value == Some(number as i128),
            None => value is None,
        },
{
    let bytes = text.as_bytes();
    let negative = bytes.len() > 0 && bytes[0] == MINUS;
    let start: usize = if bytes.len() > 0 && (bytes[0] == PLUS || bytes[0] == MINUS) {
        1
    } else {
        0
    };
    proof {
        if start == 1 {
            assert(bytes@.drop_first() =~= bytes@.subrange(1, bytes@.len() as int));
        } else {
            assert(bytes@ =~= bytes@.subrange(0, bytes@.len() as int));
        }
    }
    let limit: u128 = if negative {
        (-(min + 1)) as u128 + 1
    } else {
        max as u128
    };
    match read_magnitude(bytes, start, limit) {
        Some(number) => if !negative {
            Some(number as i128)
        } else if number == limit {
            Some(min)
        } else {
            Some(-(number as i128))
        },
        None => None,
    }
}

/// A failed step as the error of a function.
fn failed(operation: &Operation, zero: bool) -> (error: FunctionError)
    ensures
        error@ == FunctionErrorView::RuntimeError(failure(*operation, zero)),
{
    let text = match operation {
        Operation::Add => "attempt to add with overflow",
        Operation::Sub => "attempt to subtract with overflow",
        Operation::Mul => "attempt to multiply with overflow",
        Operation::Div => if zero {
            "attempt to divide by zero"
        } else {
            "attempt to divide with overflow"
        },
    };
    FunctionError::RuntimeError(text.to_owned())
}

/// One step on an unsigned type.
fn step_unsigned(operation: &Operation, so_far: u128, value: u128, max: u128) -> (result: Result<
    u128,
    FunctionError,
>)
    requires
        so_far <= max,
        value <= max,
    ensures
        match step(*operation, so_far as int, value as int, Range { min: 0, max: max as int }) {
            Ok(next) => result == Ok::<u128, FunctionError>(next as u128),
            Err(why) => result matches Err(error) && error@ == FunctionErrorView::RuntimeError(why),
        },
{
    let next = match operation {
        Operation::Add => so_far.checked_add(value),
        Operation::Sub => so_far.checked_sub(value),
        Operation::Mul => so_far.checked_mul(value),
        Operation::Div => {
            if value == 0 {
                return Err(failed(operation, true));
            }
            Some(so_far / value)
        },
    };
    match next {
        Some(next) => if next <= max {
            Ok(next)
        } else {
            Err(failed(operation, false))
        },
        None => Err(failed(operation, false)),
    }
}

/// One step on a signed type.
fn step_signed(operation: &Operation, so_far: i128, value: i128, min: i128, max: i128) -> (result:
    Result<i128, FunctionError>)
    requires
        min <= so_far <= max,
        min <= value <= max,
    ensures
        match step(
            *operation,
            so_far as int,
            value as int,
            Range { min: min as int, max: max as int },
        ) {
            Ok(next) => result == Ok::<i128, FunctionError>(next as i128),
            Err(why) => result matches Err(error) && error@ == FunctionErrorView::RuntimeError(why),
        },
{
    let next = match operation {
        Operation::Add => so_far.checked_add(value),
        Operation::Sub => so_far.checked_sub(value),
        Operation::Mul => so_far.checked_mul(value),
        Operation::Div => {
            if value == 0 {
                return Err(failed(operation, true));
            }
            so_far.checked_div(value)
        },
    };
    match next {
        Some(next) => if min <= next && next <= max {
            Ok(next)
        } else {
            Err(failed(operation, false))
        },
        None => Err(failed(operation, false)),
    }
}

/// The text of `value`.
fn signed_text(value: i128) -> (text: String)
    ensures
        text@ == integer_text(value as int),
{
    let mut text = String::new();
    if value < 0 {
        text.append("-");
        let size: u128 = if value == i128::MIN {
            0x8000_0000_0000_0000_0000_0000_0000_0000
        } else {
            (-value) as u128
        };
        append_decimal(&mut text, size);
    } else {
        append_decimal(&mut text, value as u128);
        assert(Seq::<char>::empty() + decimal(value as nat) =~= decimal(value as nat));
    }
    text
}

/// Where all of `args` are integers of the type, none of them is the first
/// that is not.
proof fn lemma_all_read(args: Seq<Seq<char>>, range: Range)
    requires
        forall|i: int| 0 <= i < args.len() ==> (#[trigger] integer_of_text(args[i], range)) is Some,
    ensures
        first_unread(args, range) is None,
    decreases args.len(),
{
    if args.len() > 0 {
        assert forall|i: int| 0 <= i < args.drop_last().len() implies (#[trigger] integer_of_text(
            args.drop_last()[i],
            range,
        )) is Some by {
            assert(args.drop_last()[i] == args[i]);
        }
        lemma_all_read(args.drop_last(), range);
    }
}

/// Where the arguments before index `at` are integers of the type and the
/// one at `at` is not, that one is the first that is not.
proof fn lemma_first_unread(args: Seq<Seq<char>>, range: Range, at: int)
    requires
        0 <= at < args.len(),
        forall|i: int| 0 <= i < at ==> (#[trigger] integer_of_text(args[i], range)) is Some,
        integer_of_text(args[at], range) is None,
    ensures
        first_unread(args, range) == Some(at),
    decreases args.len(),
{
    if at == args.len() - 1 {
        assert forall|i: int| 0 <= i < args.drop_last().len() implies (#[trigger] integer_of_text(
            args.drop_last()[i],
            range,
        )) is Some by {
            assert(args.drop_last()[i] == args[i]);
        }
        lemma_all_read(args.drop_last(), range);
    } else {
        assert(args.drop_last()[at] == args[at]);
        assert forall|i: int| 0 <= i < at implies (#[trigger] integer_of_text(
            args.drop_last()[i],
            range,
        )) is Some by {
            assert(args.drop_last()[i] == args[i]);
        }
        lemma_first_unread(args.drop_last(), range, at);
    }
}

/// A function on an unsigned type whose greatest number is `max`.
fn unsigned(operation: Operation, args: &[String], max: u128) -> (result: FuncResult)
    ensures
        func_result_view(result) == arithmetic(
            operation,
            texts(args@),
            Range { min: 0, max: max as int },
        ),
{
    let ghost range = Range { min: 0, max: max as int };
    let ghost given = texts(args@);
    let mut values: Vec<u128> = Vec::new();
    let mut index: usize = 0;
    while index < args.len()
        invariant
            index <= args@.len(),
            given == texts(args@),
            range == (Range { min: 0, max: max as int }),
            values@.len() == index,
            forall|i: int|
                0 <= i < index ==> #[trigger] integer_of_text(given[i], range) == Some(
                    values@[i] as int,
                ),
        decreases args@.len() - index,
    {
        match read_unsigned(args[index].as_str(), max) {
            Some(value) => {
                values.push(value);
            },
            None => {
                proof {
                    lemma_first_unread(given, range, index as int);
                }
                return Err(FunctionError::InvalidType(args[index].clone()));
            },
        }
        index = index + 1;
    }
    let ghost numbers = integers(given, range);
    proof {
        lemma_all_read(given, range);
        assert(numbers.take(0) =~= Seq::<int>::empty());
        assert forall|i: int| 0 <= i < values@.len() implies numbers[i] == (
        #[trigger] values@[i]) as int && range.min <= numbers[i] <= range.max by {
            assert(integer_of_text(given[i], range) == Some(values@[i] as int));
        }
    }
    let mut so_far: u128 = 0;
    let mut done: usize = 0;
    while done < values.len()
        invariant
            done <= values@.len(),
            values@.len() == numbers.len(),
            given == texts(args@),
            numbers == integers(given, range),
            first_unread(given, range) is None,
            range == (Range { min: 0, max: max as int }),
            forall|i: int| 0 <= i < values@.len() ==> numbers[i] == (#[trigger] values@[i]) as int,
            forall|i: int| 0 <= i < values@.len() ==> 0 <= #[trigger] numbers[i] <= max,
            so_far <= max,
            folded(operation, numbers.take(done as int), range) == Ok::<int, Seq<char>>(
                so_far as int,
            ),
        decreases values@.len() - done,
    {
        proof {
            assert(numbers.take(done + 1).drop_last() =~= numbers.take(done as int));
            assert(numbers.take(done + 1).last() == values@[done as int] as int);
            assert(0 <= numbers[done as int] <= max);
        }
        match step_unsigned(&operation, so_far, values[done], max) {
            Ok(next) => {
                so_far = next;
            },
            Err(error) => {
                proof {
                    lemma_fold_fails(operation, numbers, range, done as int + 1);
                }
                return Err(error);
            },
        }
        done = done + 1;
    }
    proof {
        assert(numbers.take(done as int) =~= numbers);
    }
    let mut text = String::new();
    append_decimal(&mut text, so_far);
    assert(Seq::<char>::empty() + decimal(so_far as nat) =~= decimal(so_far as nat));
    Ok(text)
}

/// A function on a signed type whose numbers reach from `min` to `max`.
fn signed(operation: Operation, args: &[String], min: i128, max: i128) -> (result: FuncResult)
    requires
        min < 0 <= max,
    ensures
        func_result_view(result) == arithmetic(
            operation,
            texts(args@),
            Range { min: min as int, max: max as int },
        ),
{
    let ghost range = Range { min: min as int, max: max as int };
    let ghost given = texts(args@);
    let mut values: Vec<i128> = Vec::new();
    let mut index: usize = 0;
    while index < args.len()
        invariant
            index <= args@.len(),
            given == texts(args@),
            min < 0 <= max,
            range == (Range { min: min as int, max: max as int }),
            values@.len() == index,
            forall|i: int|
                0 <= i < index ==> #[trigger] integer_of_text(given[i], range) == Some(
                    values@[i] as int,
                ),
        decreases args@.len() - index,
    {
        match read_signed(args[index].as_str(), min, max) {
            Some(value) => {
                values.push(value);
            },
            None => {
                proof {
                    lemma_first_unread(given, range, index as int);
                }
                return Err(FunctionError::InvalidType(args[index].clone()));
            },
        }
        index = index + 1;
    }
    let ghost numbers = integers(given, range);
    proof {
        lemma_all_read(given, range);
        assert(numbers.take(0) =~= Seq::<int>::empty());
        assert forall|i: int| 0 <= i < values@.len() implies numbers[i] == (
        #[trigger] values@[i]) as int && range.min <= numbers[i] <= range.max by {
            assert(integer_of_text(given[i], range) == Some(values@[i] as int));
        }
    }
    let mut so_far: i128 = 0;
    let mut done: usize = 0;
    while done < values.len()
        invariant
            done <= values@.len(),
            values@.len() == numbers.len(),
            given == texts(args@),
            numbers == integers(given, range),
            first_unread(given, range) is None,
            min < 0 <= max,
            range == (Range { min: min as int, max: max as int }),
            forall|i: int| 0 <= i < values@.len() ==> numbers[i] == (#[trigger] values@[i]) as int,
            forall|i: int| 0 <= i < values@.len() ==> min <= #[trigger] numbers[i] <= max,
            min <= so_far <= max,
            folded(operation, numbers.take(done as int), range) == Ok::<int, Seq<char>>(
                so_far as int,
            ),
        decreases values@.len() - done,
    {
        proof {
            assert(numbers.take(done + 1).drop_last() =~= numbers.take(done as int));
            assert(numbers.take(done + 1).last() == values@[done as int] as int);
            assert(min <= numbers[done as int] <= max);
        }
        match step_signed(&operation, so_far, values[done], min, max) {
            Ok(next) => {
                so_far = next;
            },
            Err(error) => {
                proof {
                    lemma_fold_fails(operation, numbers, range, done as int + 1);
                }
                return Err(error);
            },
        }
        done = done + 1;
    }
    proof {
        assert(numbers.take(done as int) =~= numbers);
    }
    Ok(signed_text(so_far))
}

/// Where the steps over the first `len` values fail, the steps over all of
/// them fail in the same way.
proof fn lemma_fold_fails(operation: Operation, values: Seq<int>, range: Range, len: int)
    requires
        0 <= len <= values.len(),
        folded(operation, values.take(len), range) is Err,
    ensures
        folded(operation, values, range) == folded(operation, values.take(len), range),
    decreases values.len() - len,
{
    if len < values.len() {
        assert(values.take(len + 1).drop_last() =~= values.take(len));
        lemma_fold_fails(operation, values, range, len + 1);
    } else {
        assert(values.take(len) =~= values);
    }
}

/// The range of the unsigned type of `bits` bits.
pub open spec fn unsigned_range(bits: nat) -> Range {
    Range { min: 0, max: vstd::arithmetic::power2::pow2(bits) - 1 }
}

/// The range of the signed type of `bits` bits.
pub open spec fn signed_range(bits: nat) -> Range {
    Range {
        min: -vstd::arithmetic::power2::pow2((bits - 1) as nat),
        max: vstd::arithmetic::power2::pow2((bits - 1) as nat) - 1,
    }
}

/// The powers of two that bound the integer types.
proof fn lemma_bounds()
    ensures
        vstd::arithmetic::power2::pow2(7) == 0x80,
        vstd::arithmetic::power2::pow2(8) == 0x100,
        vstd::arithmetic::power2::pow2(15) == 0x8000,
        vstd::arithmetic::power2::pow2(16) == 0x1_0000,
        vstd::arithmetic::power2::pow2(31) == 0x8000_0000,
        vstd::arithmetic::power2::pow2(32) == 0x1_0000_0000,
        vstd::arithmetic::power2::pow2(63) == 0x8000_0000_0000_0000,
        vstd::arithmetic::power2::pow2(64) == 0x1_0000_0000_0000_0000,
        vstd::arithmetic::power2::pow2(127) == 0x8000_0000_0000_0000_0000_0000_0000_0000,
        vstd::arithmetic::power2::pow2(128) == 0x1_0000_0000_0000_0000_0000_0000_0000_0000,
{
    vstd::arithmetic::power2::lemma2_to64();
    vstd::arithmetic::power2::lemma2_to64_rest();
    vstd::arithmetic::power2::lemma_pow2_adds(63, 64);
    vstd::arithmetic::power2::lemma_pow2_adds(64, 64);
}

/// Adds the arguments up, as `u8`.
pub fn add_u8(args: &[String]) -> (result: FuncResult)
    ensures
        func_result_view(result) == arithmetic(
            Operation::Add,
            texts(args@),
            unsigned_range(8),
        ),
{
    proof {
        lemma_bounds();
    }
    unsigned(Operation::Add, args, 0xff)
}

/// Adds the arguments up, as `u16`.
pub fn add_u16(args: &[String]) -> (result: FuncResult)
    ensures
        func_result_view(result) == arithmetic(
            Operation::Add,
            texts(args@),
            unsigned_range(16),
        ),
{
    proof {
        lemma_bounds();
    }
    unsigned(Operation::Add, args, 0xffff)
}

/// Adds the arguments up, as `u32`.
pub fn add_u32(args: &[String]) -> (result: FuncResult)
    ensures
        func_result_view(result) == arithmetic(
            Operation::Add,
            texts(args@),
            unsigned_range(32),
        ),
{
    proof {
        lemma_bounds();
    }
    unsigned(Operation::Add, args, 0xffff_ffff)
}

/// Adds the arguments up, as `u64`.
pub fn add_u64(args: &[String]) -> (result: FuncResult)
    ensures
        func_result_view(result) == arithmetic(
            Operation::Add,
            texts(args@),
            unsigned_range(64),
        ),
{
    proof {
        lemma_bounds();
    }
    unsigned(Operation::Add, args, 0xffff_ffff_ffff_ffff)
}

/// Adds the arguments up, as `u128`.
pub fn add_u128(args: &[String]) -> (result: FuncResult)
    ensures
        func_result_view(result) == arithmetic(
            Operation::Add,
            texts(args@),
            unsigned_range(128),
        ),
{
    proof {
        lemma_bounds();
    }
    unsigned(Operation::Add, args, 0xffff_ffff_ffff_ffff_ffff_ffff_ffff_ffff)
}

/// Adds the arguments up, as `i8`.
pub fn add_i8(args: &[String]) -> (result: FuncResult)
    ensures
        func_result_view(result) == arithmetic(
            Operation::Add,
            texts(args@),
            signed_range(8),
        ),
{
    proof {
        lemma_bounds();
    }
    signed(Operation::Add, args, -0x80, 0x7f)
}

/// Adds the arguments up, as `i16`.
pub fn add_i16(args: &[String]) -> (result: FuncResult)
    ensures
        func_result_view(result) == arithmetic(
            Operation::Add,
            texts(args@),
            signed_range(16),
        ),
{
    proof {
        lemma_bounds();
    }
    signed(Operation::Add, args, -0x8000, 0x7fff)
}

/// Adds the arguments up, as `i32`.
pub fn add_i32(args: &[String]) -> (result: FuncResult)
    ensures
        func_result_view(result) == arithmetic(
            Operation::Add,
            texts(args@),
            signed_range(32),
        ),
{
    proof {
        lemma_bounds();
    }
    signed(Operation::Add, args, -0x8000_0000, 0x7fff_ffff)
}

/// Adds the arguments up, as `i64`.
pub fn add_i64(args: &[String]) -> (result: FuncResult)
    ensures
        func_result_view(result) == arithmetic(
            Operation::Add,
            texts(args@),
            signed_range(64),
        ),
{
    proof {
        lemma_bounds();
    }
    signed(Operation::Add, args, -0x8000_0000_0000_0000, 0x7fff_ffff_ffff_ffff)
}

/// Adds the arguments up, as `i128`.
pub fn add_i128(args: &[String]) -> (result: FuncResult)
    ensures
        func_result_view(result) == arithmetic(
            Operation::Add,
            texts(args@),
            signed_range(128),
        ),
{
    proof {
        lemma_bounds();
    }
    signed(Operation::Add, args, -0x7fff_ffff_ffff_ffff_ffff_ffff_ffff_ffff - 1, 0x7fff_ffff_ffff_ffff_ffff_ffff_ffff_ffff)
}

/// Takes the arguments from zero, one after the other, as `u8`.
pub fn sub_u8(args: &[String]) -> (result: FuncResult)
    ensures
        func_result_view(result) == arithmetic(
            Operation::Sub,
            texts(args@),
            unsigned_range(8),
        ),
{
    proof {
        lemma_bounds();
    }
    unsigned(Operation::Sub, args, 0xff)
}

/// Takes the arguments from zero, one after the other, as `u16`.
pub fn sub_u16(args: &[String]) -> (result: FuncResult)
    ensures
        func_result_view(result) == arithmetic(
            Operation::Sub,
            texts(args@),
            unsigned_range(16),
        ),
{
    proof {
        lemma_bounds();
    }
    unsigned(Operation::Sub, args, 0xffff)
}

/// Takes the arguments from zero, one after the other, as `u32`.
pub fn sub_u32(args: &[String]) -> (result: FuncResult)
    ensures
        func_result_view(result) == arithmetic(
            Operation::Sub,
            texts(args@),
            unsigned_range(32),
        ),
{
    proof {
        lemma_bounds();
    }
    unsigned(Operation::Sub, args, 0xffff_ffff)
}

/// Takes the arguments from zero, one after the other, as `u64`.
pub fn sub_u64(args: &[String]) -> (result: FuncResult)
    ensures
        func_result_view(result) == arithmetic(
            Operation::Sub,
            texts(args@),
            unsigned_range(64),
        ),
{
    proof {
        lemma_bounds();
    }
    unsigned(Operation::Sub, args, 0xffff_ffff_ffff_ffff)
}

/// Takes the arguments from zero, one after the other, as `u128`.
pub fn sub_u128(args: &[String]) -> (result: FuncResult)
    ensures
        func_result_view(result) == arithmetic(
            Operation::Sub,
            texts(args@),
            unsigned_range(128),
        ),
{
    proof {
        lemma_bounds();
    }
    unsigned(Operation::Sub, args, 0xffff_ffff_ffff_ffff_ffff_ffff_ffff_ffff)
}

/// Takes the arguments from zero, one after the other, as `i8`.
pub fn sub_i8(args: &[String]) -> (result: FuncResult)
    ensures
        func_result_view(result) == arithmetic(
            Operation::Sub,
            texts(args@),
            signed_range(8),
        ),
{
    proof {
        lemma_bounds();
    }
    signed(Operation::Sub, args, -0x80, 0x7f)
}

/// Takes the arguments from zero, one after the other, as `i16`.
pub fn sub_i16(args: &[String]) -> (result: FuncResult)
    ensures
        func_result_view(result) == arithmetic(
            Operation::Sub,
            texts(args@),
            signed_range(16),
        ),
{
    proof {
        lemma_bounds();
    }
    signed(Operation::Sub, args, -0x8000, 0x7fff)
}

/// Takes the arguments from zero, one after the other, as `i32`.
pub fn sub_i32(args: &[String]) -> (result: FuncResult)
    ensures
        func_result_view(result) == arithmetic(
            Operation::Sub,
            texts(args@),
            signed_range(32),
        ),
{
    proof {
        lemma_bounds();
    }
    signed(Operation::Sub, args, -0x8000_0000, 0x7fff_ffff)
}

/// Takes the arguments from zero, one after the other, as `i64`.
pub fn sub_i64(args: &[String]) -> (result: FuncResult)
    ensures
        func_result_view(result) == arithmetic(
            Operation::Sub,
            texts(args@),
            signed_range(64),
        ),
{
    proof {
        lemma_bounds();
    }
    signed(Operation::Sub, args, -0x8000_0000_0000_0000, 0x7fff_ffff_ffff_ffff)
}

/// Takes the arguments from zero, one after the other, as `i128`.
pub fn sub_i128(args: &[String]) -> (result: FuncResult)
    ensures
        func_result_view(result) == arithmetic(
            Operation::Sub,
            texts(args@),
            signed_range(128),
        ),
{
    proof {
        lemma_bounds();
    }
    signed(Operation::Sub, args, -0x7fff_ffff_ffff_ffff_ffff_ffff_ffff_ffff - 1, 0x7fff_ffff_ffff_ffff_ffff_ffff_ffff_ffff)
}

/// Multiplies zero by the arguments, one after the other, as `u8`.
pub fn mul_u8(args: &[String]) -> (result: FuncResult)
    ensures
        func_result_view(result) == arithmetic(
            Operation::Mul,
            texts(args@),
            unsigned_range(8),
        ),
{
    proof {
        lemma_bounds();
    }
    unsigned(Operation::Mul, args, 0xff)
}

/// Multiplies zero by the arguments, one after the other, as `u16`.
pub fn mul_u16(args: &[String]) -> (result: FuncResult)
    ensures
        func_result_view(result) == arithmetic(
            Operation::Mul,
            texts(args@),
            unsigned_range(16),
        ),
{
    proof {
        lemma_bounds();
    }
    unsigned(Operation::Mul, args, 0xffff)
}

/// Multiplies zero by the arguments, one after the other, as `u32`.
pub fn mul_u32(args: &[String]) -> (result: FuncResult)
    ensures
        func_result_view(result) == arithmetic(
            Operation::Mul,
            texts(args@),
            unsigned_range(32),
        ),
{
    proof {
        lemma_bounds();
    }
    unsigned(Operation::Mul, args, 0xffff_ffff)
}

/// Multiplies zero by the arguments, one after the other, as `u64`.
pub fn mul_u64(args: &[String]) -> (result: FuncResult)
    ensures
        func_result_view(result) == arithmetic(
            Operation::Mul,
            texts(args@),
            unsigned_range(64),
        ),
{
    proof {
        lemma_bounds();
    }
    unsigned(Operation::Mul, args, 0xffff_ffff_ffff_ffff)
}

/// Multiplies zero by the arguments, one after the other, as `u128`.
pub fn mul_u128(args: &[String]) -> (result: FuncResult)
    ensures
        func_result_view(result) == arithmetic(
            Operation::Mul,
            texts(args@),
            unsigned_range(128),
        ),
{
    proof {
        lemma_bounds();
    }
    unsigned(Operation::Mul, args, 0xffff_ffff_ffff_ffff_ffff_ffff_ffff_ffff)
}

/// Multiplies zero by the arguments, one after the other, as `i8`.
pub fn mul_i8(args: &[String]) -> (result: FuncResult)
    ensures
        func_result_view(result) == arithmetic(
            Operation::Mul,
            texts(args@),
            signed_range(8),
        ),
{
    proof {
        lemma_bounds();
    }
    signed(Operation::Mul, args, -0x80, 0x7f)
}

/// Multiplies zero by the arguments, one after the other, as `i16`.
pub fn mul_i16(args: &[String]) -> (result: FuncResult)
    ensures
        func_result_view(result) == arithmetic(
            Operation::Mul,
            texts(args@),
            signed_range(16),
        ),
{
    proof {
        lemma_bounds();
    }
    signed(Operation::Mul, args, -0x8000, 0x7fff)
}

/// Multiplies zero by the arguments, one after the other, as `i32`.
pub fn mul_i32(args: &[String]) -> (result: FuncResult)
    ensures
        func_result_view(result) == arithmetic(
            Operation::Mul,
            texts(args@),
            signed_range(32),
        ),
{
    proof {
        lemma_bounds();
    }
    signed(Operation::Mul, args, -0x8000_0000, 0x7fff_ffff)
}

/// Multiplies zero by the arguments, one after the other, as `i64`.
pub fn mul_i64(args: &[String]) -> (result: FuncResult)
    ensures
        func_result_view(result) == arithmetic(
            Operation::Mul,
            texts(args@),
            signed_range(64),
        ),
{
    proof {
        lemma_bounds();
    }
    signed(Operation::Mul, args, -0x8000_0000_0000_0000, 0x7fff_ffff_ffff_ffff)
}

/// Multiplies zero by the arguments, one after the other, as `i128`.
pub fn mul_i128(args: &[String]) -> (result: FuncResult)
    ensures
        func_result_view(result) == arithmetic(
            Operation::Mul,
            texts(args@),
            signed_range(128),
        ),
{
    proof {
        lemma_bounds();
    }
    signed(Operation::Mul, args, -0x7fff_ffff_ffff_ffff_ffff_ffff_ffff_ffff - 1, 0x7fff_ffff_ffff_ffff_ffff_ffff_ffff_ffff)
}

/// Divides zero by the arguments, one after the other, as `u8`.
pub fn div_u8(args: &[String]) -> (result: FuncResult)
    ensures
        func_result_view(result) == arithmetic(
            Operation::Div,
            texts(args@),
            unsigned_range(8),
        ),
{
    proof {
        lemma_bounds();
    }
    unsigned(Operation::Div, args, 0xff)
}

/// Divides zero by the arguments, one after the other, as `u16`.
pub fn div_u16(args: &[String]) -> (result: FuncResult)
    ensures
        func_result_view(result) == arithmetic(
            Operation::Div,
            texts(args@),
            unsigned_range(16),
        ),
{
    proof {
        lemma_bounds();
    }
    unsigned(Operation::Div, args, 0xffff)
}

/// Divides zero by the arguments, one after the other, as `u32`.
pub fn div_u32(args: &[String]) -> (result: FuncResult)
    ensures
        func_result_view(result) == arithmetic(
            Operation::Div,
            texts(args@),
            unsigned_range(32),
        ),
{
    proof {
        lemma_bounds();
    }
    unsigned(Operation::Div, args, 0xffff_ffff)
}

/// Divides zero by the arguments, one after the other, as `u64`.
pub fn div_u64(args: &[String]) -> (result: FuncResult)
    ensures
        func_result_view(result) == arithmetic(
            Operation::Div,
            texts(args@),
            unsigned_range(64),
        ),
{
    proof {
        lemma_bounds();
    }
    unsigned(Operation::Div, args, 0xffff_ffff_ffff_ffff)
}

/// Divides zero by the arguments, one after the other, as `u128`.
pub fn div_u128(args: &[String]) -> (result: FuncResult)
    ensures
        func_result_view(result) == arithmetic(
            Operation::Div,
            texts(args@),
            unsigned_range(128),
        ),
{
    proof {
        lemma_bounds();
    }
    unsigned(Operation::Div, args, 0xffff_ffff_ffff_ffff_ffff_ffff_ffff_ffff)
}

/// Divides zero by the arguments, one after the other, as `i8`.
pub fn div_i8(args: &[String]) -> (result: FuncResult)
    ensures
        func_result_view(result) == arithmetic(
            Operation::Div,
            texts(args@),
            signed_range(8),
        ),
{
    proof {
        lemma_bounds();
    }
    signed(Operation::Div, args, -0x80, 0x7f)
}

/// Divides zero by the arguments, one after the other, as `i16`.
pub fn div_i16(args: &[String]) -> (result: FuncResult)
    ensures
        func_result_view(result) == arithmetic(
            Operation::Div,
            texts(args@),
            signed_range(16),
        ),
{
    proof {
        lemma_bounds();
    }
    signed(Operation::Div, args, -0x8000, 0x7fff)
}

/// Divides zero by the arguments, one after the other, as `i32`.
pub fn div_i32(args: &[String]) -> (result: FuncResult)
    ensures
        func_result_view(result) == arithmetic(
            Operation::Div,
            texts(args@),
            signed_range(32),
        ),
{
    proof {
        lemma_bounds();
    }
    signed(Operation::Div, args, -0x8000_0000, 0x7fff_ffff)
}

/// Divides zero by the arguments, one after the other, as `i64`.
pub fn div_i64(args: &[String]) -> (result: FuncResult)
    ensures
        func_result_view(result) == arithmetic(
            Operation::Div,
            texts(args@),
            signed_range(64),
        ),
{
    proof {
        lemma_bounds();
    }
    signed(Operation::Div, args, -0x8000_0000_0000_0000, 0x7fff_ffff_ffff_ffff)
}

/// Divides zero by the arguments, one after the other, as `i128`.
pub fn div_i128(args: &[String]) -> (result: FuncResult)
    ensures
        func_result_view(result) == arithmetic(
            Operation::Div,
            texts(args@),
            signed_range(128),
        ),
{
    proof {
        lemma_bounds();
    }
    signed(Operation::Div, args, -0x7fff_ffff_ffff_ffff_ffff_ffff_ffff_ffff - 1, 0x7fff_ffff_ffff_ffff_ffff_ffff_ffff_ffff)
}

} // verus!
