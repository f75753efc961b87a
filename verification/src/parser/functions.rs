//! The arguments of a function call.

use vstd::prelude::*;
use vstd::string::*;
use vstd::utf8::*;

use crate::error::Error;
use crate::parser::grammar::{
    argument,
    arguments,
    remaining,
    run_len,
    ByteClass,
    NodeView,
    Parsed,
    CLOSE_PAREN,
    COMMA,
    QUOTE,
};
use crate::parser::literals::{number_literal, string_literal};
use crate::parser::text::lemma_boundary_after_ascii;
use crate::parser::{
    advance,
    as_error,
    node_result_view,
    is_digit,
    is_eof,
    lemma_boundary_after_run,
    lemma_prepend_nothing,
    lemma_prepend_step,
    lemma_run,
    node_views,
    nodes_result_view,
    parse_template_expression,
    prepend_all,
    skip_whitespace,
    TemplateNode,
};

verus! {

/// The arguments `rest`, with `used` bytes and the arguments `done` before
/// them.
pub open spec fn after_arguments(
    used: nat,
    done: Seq<NodeView>,
    rest: Parsed<Seq<NodeView>>,
) -> Parsed<Seq<NodeView>> {
    Parsed { used: used + rest.used, value: prepend_all(done, rest.value) }
}

/// The arguments at the cursor, in the order in which they are written: an
/// argument that starts with a double quote is a string literal, one that
/// starts with a digit is a number literal, and any other is an expression.
/// The list ends before `)`, at the end of the input, or after an argument
/// that no comma follows. The cursor is moved to that place; after an error
/// it stands where the parse stopped.
pub fn parse_function_arguments<'a>(input: &'a str, chars: &[u8], position: &mut usize) -> (result:
    Result<Vec<TemplateNode<'a>>, Error>)
    requires
        chars@ == input.spec_bytes(),
        *old(position) <= chars@.len(),
        is_char_boundary(chars@, *old(position) as int),
    ensures
        *final(position) == *old(position) + arguments(chars@, *old(position) as nat).used,
        *final(position) <= chars@.len(),
        result is Ok ==> is_char_boundary(chars@, *final(position) as int),
        nodes_result_view(result) == as_error(arguments(chars@, *old(position) as nat).value),
    decreases remaining(chars@, *old(position) as nat), 2nat,
{
    broadcast use encode_utf8_valid_utf8;

    let mut args: Vec<TemplateNode<'a>> = Vec::new();
    let ghost bytes = chars@;
    let ghost origin = *old(position) as nat;
    proof {
        lemma_prepend_nothing(arguments(bytes, origin).value);
        assert(node_views(args@) =~= Seq::<NodeView>::empty());
    }
    while !is_eof(chars, *position) && chars[*position] != CLOSE_PAREN
        invariant
            chars@ == bytes,
            bytes == input.spec_bytes(),
            valid_utf8(bytes),
            origin == *old(position),
            origin <= *position <= bytes.len(),
            is_char_boundary(bytes, *position as int),
            arguments(bytes, origin) == after_arguments(
                (*position - origin) as nat,
                node_views(args@),
                arguments(bytes, *position as nat),
            ),
        decreases bytes.len() - *position,
    {
        let ghost head = *position as nat;
        let ghost done = node_views(args@);
        proof {
            lemma_run(bytes, head, ByteClass::Whitespace);
            lemma_boundary_after_run(bytes, head, ByteClass::Whitespace);
        }
        skip_whitespace(chars, position);
        if is_eof(chars, *position) || chars[*position] == CLOSE_PAREN {
            proof {
                assert(done + Seq::<NodeView>::empty() =~= done);
            }
            return Ok(args);
        }
        let ghost first = *position as nat;
        let token = chars[*position];
        let parsed = if token == QUOTE {
            string_literal(input, chars, position)
        } else if is_digit(token) {
            number_literal(input, chars, position)
        } else {
            parse_template_expression(input, chars, position)
        };
        let ghost item = argument(bytes, first);
        let ghost lead = run_len(bytes, head, ByteClass::Whitespace);
        assert(*position == first + item.used);
        assert(node_result_view(parsed) == as_error(item.value));
        let arg = match parsed {
            Ok(arg) => arg,
            Err(error) => {
                assert(arguments(bytes, head) == Parsed::<Seq<NodeView>> {
                    used: lead + item.used,
                    value: Err(item.value->Err_0),
                });
                return Err(error);
            },
        };
        let ghost end = *position as nat;
        proof {
            lemma_run(bytes, end, ByteClass::Whitespace);
            lemma_boundary_after_run(bytes, end, ByteClass::Whitespace);
        }
        skip_whitespace(chars, position);
        args.push(arg);
        proof {
            assert(node_views(args@) =~= done.push(arg@));
        }
        if is_eof(chars, *position) || chars[*position] != COMMA {
            proof {
                assert(done + seq![arg@] =~= done.push(arg@));
            }
            return Ok(args);
        }
        let ghost comma = *position as nat;
        advance(chars, position);
        proof {
            lemma_boundary_after_ascii(bytes, comma as int + 1);
            lemma_prepend_step(done, arg@, arguments(bytes, comma + 1).value);
        }
    }
    proof {
        assert(node_views(args@) + Seq::<NodeView>::empty() =~= node_views(args@));
    }
    Ok(args)
}

} // verus!
