//! Parsing of template text into nodes.
//!
//! The parser walks over the bytes of the input with a cursor. Text outside
//! the delimiters is kept as raw text; between an opening and a closing
//! delimiter stands one expression, a variable or a call of a function with
//! arguments. What the parser returns is stated in [`grammar`].

use vstd::prelude::*;
use vstd::string::*;
use vstd::utf8::*;

use crate::error::{Error, ErrorView};
use crate::parser::error::{SyntaxError, SyntaxErrorKind, SyntaxErrorView};
use crate::parser::functions::parse_function_arguments;
use crate::parser::grammar::{
    arguments,
    delimiter_at,
    expression,
    in_class,
    prepend,
    raw_text_len,
    remaining,
    run_len,
    template,
    ByteClass,
    NodeView,
    CLOSE_PAREN,
    OPEN_PAREN,
};
use crate::parser::text::{
    lemma_boundary_after_ascii,
    lemma_boundary_after_piece,
    lemma_boundary_at_leading_byte,
    lemma_first_byte_leads,
    slice_text,
    text,
};

pub mod error;
pub mod functions;
pub mod grammar;
pub mod lexer;
pub mod literals;
pub mod text;

verus! {

/// A node of a parsed template. The text of a node is a slice of the input.
#[derive(Debug, PartialEq, Eq)]
pub enum TemplateNode<'a> {
    /// A variable, by its name.
    Variable(&'a str),
    /// A call of a function, by its name, with its arguments in the order in
    /// which they are written.
    Function(&'a str, Vec<TemplateNode<'a>>),
    /// A string literal, without its quotes.
    String(&'a str),
    /// A number literal without a decimal point.
    Number(&'a str),
    /// A number literal with a decimal point.
    Float(&'a str),
    /// Text outside the delimiters.
    RawText(&'a str),
}

impl<'a> View for TemplateNode<'a> {
    type V = NodeView;

    open spec fn view(&self) -> NodeView
        decreases self,
    {
        match self {
            TemplateNode::Variable(name) => NodeView::Variable(name@),
            TemplateNode::Function(name, args) => NodeView::Function(
                name@,
                Seq::new(
                    args@.len(),
                    |i: int|
                        if 0 <= i < args@.len() {
                            args@[i].view()
                        } else {
                            NodeView::RawText(Seq::empty())
                        },
                ),
            ),
            TemplateNode::String(text) => NodeView::String(text@),
            TemplateNode::Number(text) => NodeView::Number(text@),
            TemplateNode::Float(text) => NodeView::Float(text@),
            TemplateNode::RawText(text) => NodeView::RawText(text@),
        }
    }
}

/// The views of `nodes`, in order.
pub open spec fn node_views<'a>(nodes: Seq<TemplateNode<'a>>) -> Seq<NodeView> {
    Seq::new(nodes.len(), |i: int| nodes[i]@)
}

/// A result of the grammar as an error of the library.
pub open spec fn as_error<T>(value: Result<T, SyntaxErrorView>) -> Result<T, ErrorView> {
    match value {
        Ok(value) => Ok(value),
        Err(error) => Err(ErrorView::BadSyntax(error)),
    }
}

/// The view of a parsed node or of the error in its place.
pub open spec fn node_result_view<'a>(result: Result<TemplateNode<'a>, Error>) -> Result<
    NodeView,
    ErrorView,
> {
    match result {
        Ok(node) => Ok(node@),
        Err(error) => Err(error@),
    }
}

/// The view of a parsed list of nodes or of the error in its place.
pub open spec fn nodes_result_view<'a>(result: Result<Vec<TemplateNode<'a>>, Error>) -> Result<
    Seq<NodeView>,
    ErrorView,
> {
    match result {
        Ok(nodes) => Ok(node_views(nodes@)),
        Err(error) => Err(error@),
    }
}

/// `done` put before the nodes of `rest`; an error stays as it is.
pub open spec fn prepend_all(
    done: Seq<NodeView>,
    rest: Result<Seq<NodeView>, SyntaxErrorView>,
) -> Result<Seq<NodeView>, SyntaxErrorView> {
    match rest {
        Ok(nodes) => Ok(done + nodes),
        Err(error) => Err(error),
    }
}

/// A run of bytes of one class lies inside the input, holds only bytes of
/// that class, and cannot be made longer.
pub proof fn lemma_run(bytes: Seq<u8>, pos: nat, class: ByteClass)
    ensures
        run_len(bytes, pos, class) <= remaining(bytes, pos),
        forall|i: int|
            pos <= i < pos + run_len(bytes, pos, class) ==> in_class(class, #[trigger] bytes[i]),
        pos + run_len(bytes, pos, class) < bytes.len() ==> !in_class(
            class,
            bytes[pos + run_len(bytes, pos, class) as int],
        ),
    decreases remaining(bytes, pos),
{
    if pos < bytes.len() && in_class(class, bytes[pos as int]) {
        lemma_run(bytes, pos + 1, class);
    }
}

/// A run of bytes of one class that starts between two characters ends
/// between two characters: all its bytes are ASCII.
pub proof fn lemma_boundary_after_run(bytes: Seq<u8>, pos: nat, class: ByteClass)
    requires
        valid_utf8(bytes),
        is_char_boundary(bytes, pos as int),
    ensures
        is_char_boundary(bytes, (pos + run_len(bytes, pos, class)) as int),
{
    lemma_run(bytes, pos, class);
    let end = pos + run_len(bytes, pos, class);
    if end > pos {
        assert(in_class(class, bytes[end - 1]));
        lemma_boundary_after_ascii(bytes, end as int);
    }
}

/// Raw text lies inside the input and ends at the end of the input or where
/// the delimiter stands; the delimiter stands nowhere inside it.
pub proof fn lemma_raw_text(bytes: Seq<u8>, open: Seq<u8>, pos: nat)
    ensures
        raw_text_len(bytes, open, pos) <= remaining(bytes, pos),
        forall|i: nat|
            pos <= i < pos + raw_text_len(bytes, open, pos) ==> !#[trigger] delimiter_at(
                bytes,
                open,
                i,
            ),
        pos + raw_text_len(bytes, open, pos) < bytes.len() ==> delimiter_at(
            bytes,
            open,
            pos + raw_text_len(bytes, open, pos),
        ),
    decreases remaining(bytes, pos),
{
    if !(pos >= bytes.len() || delimiter_at(bytes, open, pos)) {
        lemma_raw_text(bytes, open, pos + 1);
    }
}

/// Whether `byte` is ASCII whitespace.
pub fn is_whitespace(byte: u8) -> (yes: bool)
    ensures
        yes == in_class(ByteClass::Whitespace, byte),
{
    byte == 0x20 || byte == 0x09 || byte == 0x0a || byte == 0x0c || byte == 0x0d
}

/// Whether `byte` is an ASCII digit.
pub fn is_digit(byte: u8) -> (yes: bool)
    ensures
        yes == in_class(ByteClass::Digit, byte),
{
    0x30 <= byte && byte <= 0x39
}

/// Whether `byte` may stand in a name: an ASCII letter, an ASCII digit or
/// the underscore.
pub fn is_identifier_byte(byte: u8) -> (yes: bool)
    ensures
        yes == in_class(ByteClass::Identifier, byte),
{
    (0x30 <= byte && byte <= 0x39) || (0x41 <= byte && byte <= 0x5a) || (0x61 <= byte && byte
        <= 0x7a) || byte == 0x5f
}

/// Whether `position` is at or past the end of `chars`.
pub fn is_eof(chars: &[u8], position: usize) -> (eof: bool)
    ensures
        eof == (position >= chars@.len()),
{
    position >= chars.len()
}

/// Moves the cursor one byte on; at the end of the input it stays.
pub fn advance(chars: &[u8], position: &mut usize)
    ensures
        *final(position) == if *old(position) < chars@.len() {
            *old(position) + 1
        } else {
            *old(position) as int
        },
{
    if *position < chars.len() {
        *position = *position + 1;
    }
}

/// Whether `delim` stands at `position`. The cursor is not moved.
pub fn check_delimiter(chars: &[u8], delim: &str, position: usize) -> (found: bool)
    ensures
        found == delimiter_at(chars@, delim.spec_bytes(), position as nat),
{
    let pattern = delim.as_bytes();
    if pattern.len() > chars.len() || position > chars.len() - pattern.len() {
        return false;
    }
    let ghost piece = chars@.subrange(position as int, position + pattern@.len());
    let mut index: usize = 0;
    while index < pattern.len()
        invariant
            index <= pattern@.len(),
            position + pattern@.len() <= chars@.len() <= usize::MAX,
            pattern@ == delim.spec_bytes(),
            piece == chars@.subrange(position as int, position + pattern@.len()),
            forall|j: int| 0 <= j < index ==> piece[j] == pattern@[j],
        decreases pattern@.len() - index,
    {
        if chars[position + index] != pattern[index] {
            assert(piece[index as int] != pattern@[index as int]);
            return false;
        }
        index = index + 1;
    }
    assert(piece =~= pattern@);
    true
}

/// Moves the cursor over `delim` where it stands at the cursor, and says
/// whether it stood there.
pub fn advance_delimiter(chars: &[u8], delim: &str, position: &mut usize) -> (found: bool)
    ensures
        found == delimiter_at(chars@, delim.spec_bytes(), *old(position) as nat),
        *final(position) == if found {
            *old(position) + delim.spec_bytes().len()
        } else {
            *old(position) as int
        },
{
    if check_delimiter(chars, delim, *position) {
        assert(*position + delim.spec_bytes().len() <= chars.len());
        *position = *position + delim.len();
        return true;
    }
    false
}

/// Moves the cursor over the whitespace that it stands at.
pub fn skip_whitespace(chars: &[u8], position: &mut usize)
    ensures
        *final(position) == *old(position) + run_len(
            chars@,
            *old(position) as nat,
            ByteClass::Whitespace,
        ),
{
    while !is_eof(chars, *position) && is_whitespace(chars[*position])
        invariant
            *position + run_len(chars@, *position as nat, ByteClass::Whitespace) == *old(position)
                + run_len(chars@, *old(position) as nat, ByteClass::Whitespace),
        decreases chars@.len() - *position,
    {
        advance(chars, position);
    }
}

/// Moves the cursor over the name that it stands at, and returns where the
/// name starts and where it ends. The name may be empty.
pub fn identifier(chars: &[u8], position: &mut usize) -> (span: (usize, usize))
    ensures
        span.0 == *old(position),
        span.1 == *final(position),
        *final(position) == *old(position) + run_len(
            chars@,
            *old(position) as nat,
            ByteClass::Identifier,
        ),
{
    let start = *position;
    while !is_eof(chars, *position) && is_identifier_byte(chars[*position])
        invariant
            *position + run_len(chars@, *position as nat, ByteClass::Identifier) == start
                + run_len(chars@, start as nat, ByteClass::Identifier),
        decreases chars@.len() - *position,
    {
        advance(chars, position);
    }
    (start, *position)
}

/// The raw text from the cursor up to the next opening delimiter or the end
/// of the input. The cursor is moved to its end.
pub fn raw_text<'a>(input: &'a str, chars: &[u8], open_delim: &str, position: &mut usize) -> (node:
    TemplateNode<'a>)
    requires
        chars@ == input.spec_bytes(),
        *old(position) <= chars@.len(),
        is_char_boundary(chars@, *old(position) as int),
    ensures
        *final(position) == *old(position) + raw_text_len(
            chars@,
            open_delim.spec_bytes(),
            *old(position) as nat,
        ),
        *final(position) <= chars@.len(),
        is_char_boundary(chars@, *final(position) as int),
        node@ == NodeView::RawText(
            text(chars@, *old(position) as nat, *final(position) as nat),
        ),
{
    broadcast use encode_utf8_valid_utf8;

    let start = *position;
    let ghost open = open_delim.spec_bytes();
    while !is_eof(chars, *position) && !check_delimiter(chars, open_delim, *position)
        invariant
            start <= *position <= chars@.len(),
            open == open_delim.spec_bytes(),
            *position + raw_text_len(chars@, open, *position as nat) == start + raw_text_len(
                chars@,
                open,
                start as nat,
            ),
        decreases chars@.len() - *position,
    {
        advance(chars, position);
    }
    proof {
        if *position == start {
        } else if *position < chars@.len() {
            lemma_raw_text(chars@, open, start as nat);
            assert(!delimiter_at(chars@, open, start as nat));
            assert(open.len() > 0) by {
                if open.len() == 0 {
                    assert(chars@.subrange(start as int, start as int) =~= open);
                }
            }
            lemma_first_byte_leads(open);
            assert(chars@[*position as int] == chars@.subrange(
                *position as int,
                *position + open.len(),
            )[0]);
            lemma_boundary_at_leading_byte(chars@, *position as int);
        } else {
            is_char_boundary_start_end_of_seq(chars@);
        }
    }
    TemplateNode::RawText(slice_text(input, start, *position))
}

/// The view of a call holds the views of its arguments, in order.
pub proof fn lemma_function_view<'a>(name: &'a str, args: Vec<TemplateNode<'a>>)
    ensures
        TemplateNode::Function(name, args)@ == NodeView::Function(name@, node_views(args@)),
{
    let node = TemplateNode::Function(name, args);
    assert(node@->Function_1 =~= node_views(args@));
}

/// Text that holds a character holds a byte.
pub proof fn lemma_nonempty(chars: Seq<char>)
    requires
        chars.len() > 0,
    ensures
        encode_utf8(chars).len() > 0,
{
    encode_utf8_first_scalar(chars);
}

/// The expression at the cursor: a variable, or a call of a function with
/// its arguments. The cursor is moved over the expression and the whitespace
/// round it; after an error it stands where the parse stopped.
pub fn parse_template_expression<'a>(input: &'a str, chars: &[u8], position: &mut usize) -> (result:
    Result<TemplateNode<'a>, Error>)
    requires
        chars@ == input.spec_bytes(),
        *old(position) <= chars@.len(),
        is_char_boundary(chars@, *old(position) as int),
    ensures
        *final(position) == *old(position) + expression(chars@, *old(position) as nat).used,
        *final(position) <= chars@.len(),
        result is Ok ==> is_char_boundary(chars@, *final(position) as int),
        node_result_view(result) == as_error(expression(chars@, *old(position) as nat).value),
    decreases remaining(chars@, *old(position) as nat), 0nat,
{
    broadcast use encode_utf8_valid_utf8;

    let ghost bytes = chars@;
    let ghost pos = *old(position) as nat;
    proof {
        lemma_run(bytes, pos, ByteClass::Whitespace);
        lemma_boundary_after_run(bytes, pos, ByteClass::Whitespace);
    }
    skip_whitespace(chars, position);
    let ghost name_start = *position as nat;
    proof {
        lemma_run(bytes, name_start, ByteClass::Identifier);
        lemma_boundary_after_run(bytes, name_start, ByteClass::Identifier);
    }
    let (start, name_end) = identifier(chars, position);
    proof {
        lemma_run(bytes, name_end as nat, ByteClass::Whitespace);
        lemma_boundary_after_run(bytes, name_end as nat, ByteClass::Whitespace);
    }
    skip_whitespace(chars, position);
    let name = slice_text(input, start, name_end);

    if !is_eof(chars, *position) && chars[*position] == OPEN_PAREN {
        let ghost paren = *position as nat;
        advance(chars, position);
        proof {
            lemma_boundary_after_ascii(bytes, paren as int + 1);
            lemma_run(bytes, paren + 1, ByteClass::Whitespace);
            lemma_boundary_after_run(bytes, paren + 1, ByteClass::Whitespace);
        }
        skip_whitespace(chars, position);
        let args = match parse_function_arguments(input, chars, position) {
            Ok(args) => args,
            Err(error) => {
                return Err(error);
            },
        };
        let ghost list_end = *position as nat;
        proof {
            lemma_run(bytes, list_end, ByteClass::Whitespace);
            lemma_boundary_after_run(bytes, list_end, ByteClass::Whitespace);
        }
        skip_whitespace(chars, position);
        if is_eof(chars, *position) || chars[*position] != CLOSE_PAREN {
            return Err(SyntaxErrorKind::UnterminatedArgument.into_error(input, start));
        }
        let ghost close = *position as nat;
        advance(chars, position);
        proof {
            lemma_boundary_after_ascii(bytes, close as int + 1);
            lemma_run(bytes, close + 1, ByteClass::Whitespace);
            lemma_boundary_after_run(bytes, close + 1, ByteClass::Whitespace);
        }
        skip_whitespace(chars, position);
        proof {
            lemma_function_view(name, args);
        }
        Ok(TemplateNode::Function(name, args))
    } else {
        Ok(TemplateNode::Variable(name))
    }
}

/// Parses `input` into nodes. `start` opens an expression and `close` closes
/// it; everything outside is raw text. The first error ends the parse.
pub fn parser<'a>(input: &'a str, start: &str, close: &str) -> (result: Result<
    Vec<TemplateNode<'a>>,
    Error,
>)
    requires
        start@.len() > 0,
    ensures
        nodes_result_view(result) == as_error(
            template(input.spec_bytes(), start.spec_bytes(), close.spec_bytes(), 0),
        ),
{
    broadcast use encode_utf8_valid_utf8;

    let mut res: Vec<TemplateNode<'a>> = Vec::with_capacity(20);
    let chars = input.as_bytes();
    let mut position: usize = 0;
    let ghost bytes = input.spec_bytes();
    let ghost open = start.spec_bytes();
    let ghost shut = close.spec_bytes();
    proof {
        lemma_nonempty(start@);
        encode_utf8_decode_utf8(close@);
        is_char_boundary_start_end_of_seq(bytes);
        lemma_prepend_nothing(template(bytes, open, shut, 0));
        assert(node_views(res@) =~= Seq::<NodeView>::empty());
    }
    while !is_eof(chars, position)
        invariant
            chars@ == bytes,
            bytes == input.spec_bytes(),
            open == start.spec_bytes(),
            shut == close.spec_bytes(),
            decode_utf8(shut) == close@,
            start@.len() > 0,
            open.len() > 0,
            valid_utf8(bytes),
            valid_utf8(open),
            valid_utf8(shut),
            position <= bytes.len(),
            is_char_boundary(bytes, position as int),
            template(bytes, open, shut, 0) == prepend_all(
                node_views(res@),
                template(bytes, open, shut, position as nat),
            ),
        decreases bytes.len() - position,
    {
        let ghost here = position as nat;
        let ghost done = node_views(res@);
        if advance_delimiter(chars, start, &mut position) {
            proof {
                lemma_boundary_after_piece(bytes, here as int, open);
            }
            let var = match parse_template_expression(input, chars, &mut position) {
                Ok(var) => var,
                Err(error) => {
                    return Err(error);
                },
            };
            let ghost end = position as nat;
            if !advance_delimiter(chars, close, &mut position) {
                return Err(SyntaxError::found_eof(input, position, close));
            }
            proof {
                lemma_boundary_after_piece(bytes, end as int, shut);
                lemma_prepend_step(done, var@, template(bytes, open, shut, position as nat));
            }
            res.push(var);
            assert(node_views(res@) =~= done.push(var@));
        } else {
            proof {
                lemma_raw_text(bytes, open, here);
            }
            let node = raw_text(input, chars, start, &mut position);
            proof {
                lemma_prepend_step(done, node@, template(bytes, open, shut, position as nat));
            }
            res.push(node);
            assert(node_views(res@) =~= done.push(node@));
        }
    }
    Ok(res)
}

/// Nothing put before a result leaves the result as it is.
pub proof fn lemma_prepend_nothing(rest: Result<Seq<NodeView>, SyntaxErrorView>)
    ensures
        prepend_all(Seq::empty(), rest) == rest,
{
    match rest {
        Ok(nodes) => {
            assert(Seq::<NodeView>::empty() + nodes =~= nodes);
        },
        Err(_) => {},
    }
}

/// Putting `done` before `node` and the rest is putting `done` and `node`
/// before the rest.
pub proof fn lemma_prepend_step(
    done: Seq<NodeView>,
    node: NodeView,
    rest: Result<Seq<NodeView>, SyntaxErrorView>,
)
    ensures
        prepend_all(done, prepend(node, rest)) == prepend_all(done.push(node), rest),
{
    match rest {
        Ok(nodes) => {
            assert(done + (seq![node] + nodes) =~= done.push(node) + nodes);
        },
        Err(_) => {},
    }
}

} // verus!
