//! String and number literals.

use vstd::prelude::*;
use vstd::string::*;
use vstd::utf8::*;

use crate::error::Error;
use crate::parser::error::SyntaxErrorKind;
use crate::parser::grammar;
use crate::parser::grammar::{
    run_len,
    string_body_len,
    ByteClass,
    BACKSLASH,
    CLOSE_PAREN,
    COMMA,
    DOT,
    QUOTE,
};
use crate::parser::text::{
    lemma_boundary_after_ascii,
    lemma_boundary_at_leading_byte,
    slice_text,
};
use crate::parser::{
    advance,
    as_error,
    is_digit,
    is_eof,
    lemma_run,
    node_result_view,
    TemplateNode,
};

verus! {

/// `found` counted from `shift` bytes further back.
pub open spec fn shifted(found: Option<nat>, shift: nat) -> Option<nat> {
    match found {
        Some(len) => Some(len + shift),
        None => None,
    }
}

/// The string literal whose opening quote stands at the cursor. The body is
/// returned as it is written: a backslash keeps the byte after it from
/// closing the literal, and both stay in the text. The cursor is moved
/// behind the closing quote, or to the end of the input where there is none.
pub fn string_literal<'a>(input: &'a str, chars: &[u8], position: &mut usize) -> (result: Result<
    TemplateNode<'a>,
    Error,
>)
    requires
        chars@ == input.spec_bytes(),
        *old(position) < chars@.len(),
        chars@[*old(position) as int] == QUOTE,
    ensures
        *final(position) == *old(position) + grammar::string_literal(
            chars@,
            *old(position) as nat,
        ).used,
        *final(position) <= chars@.len(),
        result is Ok ==> is_char_boundary(chars@, *final(position) as int),
        node_result_view(result) == as_error(
            grammar::string_literal(chars@, *old(position) as nat).value,
        ),
{
    broadcast use encode_utf8_valid_utf8;

    let ghost bytes = chars@;
    let opening = *position;
    advance(chars, position);
    let start = *position;
    let mut is_escaped = false;
    proof {
        lemma_boundary_after_ascii(bytes, start as int);
    }
    while !is_eof(chars, *position)
        invariant
            chars@ == bytes,
            bytes == input.spec_bytes(),
            valid_utf8(bytes),
            is_char_boundary(bytes, start as int),
            opening == *old(position),
            start == opening + 1,
            start <= *position <= bytes.len(),
            string_body_len(bytes, start as nat, false) == shifted(
                string_body_len(bytes, *position as nat, is_escaped),
                (*position - start) as nat,
            ),
        decreases bytes.len() - *position,
    {
        let token = chars[*position];
        if is_escaped {
            is_escaped = false;
        } else if token == BACKSLASH {
            is_escaped = true;
        } else if token == QUOTE {
            let end = *position;
            advance(chars, position);
            proof {
                assert(string_body_len(bytes, end as nat, false) == Some(0nat));
                lemma_boundary_at_leading_byte(bytes, end as int);
                lemma_boundary_after_ascii(bytes, end + 1);
            }
            return Ok(TemplateNode::String(slice_text(input, start, end)));
        }
        advance(chars, position);
    }
    Err(SyntaxErrorKind::UnterminatedString.into_error(input, opening))
}

/// Moves the cursor over the digits that it stands at.
fn skip_digits(chars: &[u8], position: &mut usize)
    ensures
        *final(position) == *old(position) + run_len(
            chars@,
            *old(position) as nat,
            ByteClass::Digit,
        ),
{
    while !is_eof(chars, *position) && is_digit(chars[*position])
        invariant
            *position + run_len(chars@, *position as nat, ByteClass::Digit) == *old(position)
                + run_len(chars@, *old(position) as nat, ByteClass::Digit),
        decreases chars@.len() - *position,
    {
        advance(chars, position);
    }
}

/// The number literal at the cursor: digits with at most one `.` among
/// them. The cursor is moved to the end of the literal, or to the byte that
/// is in error.
pub fn number_literal<'a>(input: &'a str, chars: &[u8], position: &mut usize) -> (result: Result<
    TemplateNode<'a>,
    Error,
>)
    requires
        chars@ == input.spec_bytes(),
        *old(position) <= chars@.len(),
    ensures
        *final(position) == *old(position) + grammar::number_literal(
            chars@,
            *old(position) as nat,
        ).used,
        *final(position) <= chars@.len(),
        result is Ok ==> is_char_boundary(chars@, *final(position) as int),
        node_result_view(result) == as_error(
            grammar::number_literal(chars@, *old(position) as nat).value,
        ),
{
    broadcast use encode_utf8_valid_utf8;

    let ghost bytes = chars@;
    let start = *position;
    proof {
        lemma_run(bytes, start as nat, ByteClass::Digit);
    }
    skip_digits(chars, position);
    let is_float = !is_eof(chars, *position) && chars[*position] == DOT;
    if is_float {
        advance(chars, position);
        proof {
            lemma_run(bytes, *position as nat, ByteClass::Digit);
        }
        skip_digits(chars, position);
        if !is_eof(chars, *position) && chars[*position] == DOT {
            return Err(SyntaxErrorKind::FloatDotted.into_error(input, *position));
        }
    }
    if !is_eof(chars, *position) {
        let token = chars[*position];
        if !(token == COMMA || token == CLOSE_PAREN) {
            return Err(SyntaxErrorKind::InvalidNumber.into_error(input, *position));
        }
    }
    let end = *position;
    proof {
        if end > start {
            lemma_boundary_at_leading_byte(bytes, start as int);
            lemma_boundary_after_ascii(bytes, end as int);
        } else if end < bytes.len() {
            lemma_boundary_at_leading_byte(bytes, end as int);
        } else {
            is_char_boundary_start_end_of_seq(bytes);
        }
    }
    if is_float {
        return Ok(TemplateNode::Float(slice_text(input, start, end)));
    }
    Ok(TemplateNode::Number(slice_text(input, start, end)))
}

} // verus!
