//! The template syntax, stated over the bytes of the input.
//!
//! Every function here takes the input and a byte offset and says what
//! stands at that offset: how long a run of bytes is, or which node starts
//! there and how many bytes it takes. The parser is proved to compute
//! exactly these functions.

use vstd::prelude::*;
use vstd::utf8::*;

use crate::parser::error::{
    diagnostic,
    help_to_add,
    SyntaxErrorKindView,
    SyntaxErrorTokenView,
    SyntaxErrorView,
};
use crate::parser::text::text;

verus! {

/// A node of a parsed template, with its text as characters.
pub enum NodeView {
    Variable(Seq<char>),
    Function(Seq<char>, Seq<NodeView>),
    String(Seq<char>),
    Number(Seq<char>),
    Float(Seq<char>),
    RawText(Seq<char>),
}

/// What stands at an offset: the number of bytes that were taken, and the
/// value that they spell or the error that they end in.
pub struct Parsed<T> {
    pub used: nat,
    pub value: Result<T, SyntaxErrorView>,
}

/// The classes of bytes that the scanner tells apart.
pub enum ByteClass {
    /// Space, tab, line feed, form feed and carriage return.
    Whitespace,
    /// ASCII letters, ASCII digits and the underscore.
    Identifier,
    /// ASCII digits.
    Digit,
}

pub const QUOTE: u8 = 0x22;

pub const OPEN_PAREN: u8 = 0x28;

pub const CLOSE_PAREN: u8 = 0x29;

pub const COMMA: u8 = 0x2c;

pub const DOT: u8 = 0x2e;

pub const BACKSLASH: u8 = 0x5c;

pub open spec fn in_class(class: ByteClass, byte: u8) -> bool {
    match class {
        ByteClass::Whitespace => byte == 0x20 || byte == 0x09 || byte == 0x0a || byte == 0x0c
            || byte == 0x0d,
        ByteClass::Identifier => (0x30 <= byte <= 0x39) || (0x41 <= byte <= 0x5a) || (0x61 <= byte
            <= 0x7a) || byte == 0x5f,
        ByteClass::Digit => 0x30 <= byte <= 0x39,
    }
}

/// The number of bytes from `pos` to the end of the input.
pub open spec fn remaining(bytes: Seq<u8>, pos: nat) -> nat {
    if pos <= bytes.len() {
        (bytes.len() - pos) as nat
    } else {
        0
    }
}

/// The length of the longest run of bytes of `class` that starts at `pos`.
pub open spec fn run_len(bytes: Seq<u8>, pos: nat, class: ByteClass) -> nat
    decreases remaining(bytes, pos),
{
    if pos < bytes.len() && in_class(class, bytes[pos as int]) {
        1 + run_len(bytes, pos + 1, class)
    } else {
        0
    }
}

/// Whether `delimiter` stands at `pos`.
pub open spec fn delimiter_at(bytes: Seq<u8>, delimiter: Seq<u8>, pos: nat) -> bool {
    pos + delimiter.len() <= bytes.len() && bytes.subrange(
        pos as int,
        (pos + delimiter.len()) as int,
    ) == delimiter
}

/// The number of bytes from `pos` up to the next place at which `open`
/// stands, or up to the end of the input.
pub open spec fn raw_text_len(bytes: Seq<u8>, open: Seq<u8>, pos: nat) -> nat
    decreases remaining(bytes, pos),
{
    if pos >= bytes.len() || delimiter_at(bytes, open, pos) {
        0
    } else {
        1 + raw_text_len(bytes, open, pos + 1)
    }
}

/// The number of bytes from `pos` up to the double quote that closes a
/// string body, or `None` where the input ends first. A backslash takes the
/// byte after it along, whatever that byte is; `escaped` says that the byte
/// at `pos` is so taken.
pub open spec fn string_body_len(bytes: Seq<u8>, pos: nat, escaped: bool) -> Option<nat>
    decreases remaining(bytes, pos),
{
    if pos >= bytes.len() {
        None
    } else if !escaped && bytes[pos as int] == QUOTE {
        Some(0)
    } else {
        match string_body_len(bytes, pos + 1, !escaped && bytes[pos as int] == BACKSLASH) {
            Some(len) => Some(len + 1),
            None => None,
        }
    }
}

/// The string literal whose opening quote stands at `pos`. The body is kept
/// as it is written, backslashes included. A literal that is not closed takes
/// the rest of the input and is reported at its opening quote.
pub open spec fn string_literal(bytes: Seq<u8>, pos: nat) -> Parsed<NodeView> {
    match string_body_len(bytes, pos + 1, false) {
        Some(len) => Parsed {
            used: len + 2,
            value: Ok(NodeView::String(text(bytes, pos + 1, pos + 1 + len))),
        },
        None => Parsed {
            used: remaining(bytes, pos),
            value: Err(
                diagnostic(
                    bytes,
                    SyntaxErrorKindView::UnterminatedString,
                    pos,
                    Seq::empty(),
                ),
            ),
        },
    }
}

/// Whether `byte` may follow a number literal.
pub open spec fn ends_number(byte: u8) -> bool {
    byte == COMMA || byte == CLOSE_PAREN
}

/// The number literal at `pos`: digits, then at most one `.` and more
/// digits. With a `.` it is a float, without one a number. A second `.` and a
/// byte that may not follow a number are errors at that byte.
pub open spec fn number_literal(bytes: Seq<u8>, pos: nat) -> Parsed<NodeView> {
    let whole = run_len(bytes, pos, ByteClass::Digit);
    let dotted = pos + whole < bytes.len() && bytes[pos + whole as int] == DOT;
    let used = if dotted {
        whole + 1 + run_len(bytes, pos + whole + 1, ByteClass::Digit)
    } else {
        whole
    };
    let end = pos + used;
    if dotted && end < bytes.len() && bytes[end as int] == DOT {
        Parsed {
            used,
            value: Err(
                diagnostic(bytes, SyntaxErrorKindView::FloatDotted, end, Seq::empty()),
            ),
        }
    } else if end < bytes.len() && !ends_number(bytes[end as int]) {
        Parsed {
            used,
            value: Err(
                diagnostic(bytes, SyntaxErrorKindView::InvalidNumber, end, Seq::empty()),
            ),
        }
    } else if dotted {
        Parsed { used, value: Ok(NodeView::Float(text(bytes, pos, end))) }
    } else {
        Parsed { used, value: Ok(NodeView::Number(text(bytes, pos, end))) }
    }
}

/// `node` put before the nodes of `rest`; an error stays as it is.
pub open spec fn prepend(
    node: NodeView,
    rest: Result<Seq<NodeView>, SyntaxErrorView>,
) -> Result<Seq<NodeView>, SyntaxErrorView> {
    match rest {
        Ok(nodes) => Ok(seq![node] + nodes),
        Err(error) => Err(error),
    }
}

/// The expression at `pos`: whitespace, a name, whitespace, and then either
/// `(`, arguments and `)`, which make a function call, or nothing more, which
/// makes a variable. Whitespace after the expression belongs to it. A call
/// that is not closed is reported at the start of its name.
pub open spec fn expression(bytes: Seq<u8>, pos: nat) -> Parsed<NodeView>
    decreases remaining(bytes, pos), 0nat,
{
    let lead = run_len(bytes, pos, ByteClass::Whitespace);
    let name = run_len(bytes, pos + lead, ByteClass::Identifier);
    let gap = run_len(bytes, pos + lead + name, ByteClass::Whitespace);
    let after = pos + lead + name + gap;
    let name_text = text(bytes, pos + lead, pos + lead + name);
    if after < bytes.len() && bytes[after as int] == OPEN_PAREN {
        let inner = run_len(bytes, after + 1, ByteClass::Whitespace);
        let list = arguments(bytes, after + 1 + inner);
        let close = after + 1 + inner + list.used;
        let tail = run_len(bytes, close, ByteClass::Whitespace);
        match list.value {
            Err(error) => Parsed {
                used: lead + name + gap + 1 + inner + list.used,
                value: Err(error),
            },
            Ok(nodes) => if close + tail < bytes.len() && bytes[close + tail as int] == CLOSE_PAREN {
                Parsed {
                    used: lead + name + gap + 1 + inner + list.used + tail + 1 + run_len(
                        bytes,
                        close + tail + 1,
                        ByteClass::Whitespace,
                    ),
                    value: Ok(NodeView::Function(name_text, nodes)),
                }
            } else {
                Parsed {
                    used: lead + name + gap + 1 + inner + list.used + tail,
                    value: Err(
                        diagnostic(
                            bytes,
                            SyntaxErrorKindView::UnterminatedArgument,
                            pos + lead,
                            Seq::empty(),
                        ),
                    ),
                }
            },
        }
    } else {
        Parsed { used: lead + name + gap, value: Ok(NodeView::Variable(name_text)) }
    }
}

/// The argument at `pos`, which holds a byte that is no whitespace: a string
/// literal where that byte is a double quote, a number literal where it is a
/// digit, and an expression otherwise.
pub open spec fn argument(bytes: Seq<u8>, pos: nat) -> Parsed<NodeView>
    decreases remaining(bytes, pos), 1nat,
{
    if pos < bytes.len() && bytes[pos as int] == QUOTE {
        string_literal(bytes, pos)
    } else if pos < bytes.len() && in_class(ByteClass::Digit, bytes[pos as int]) {
        number_literal(bytes, pos)
    } else {
        expression(bytes, pos)
    }
}

/// The arguments from `pos` on, in the order in which they are written. The
/// list ends before `)`, at the end of the input, or after an argument that
/// no comma follows; whitespace round the arguments and commas is skipped.
pub open spec fn arguments(bytes: Seq<u8>, pos: nat) -> Parsed<Seq<NodeView>>
    decreases remaining(bytes, pos), 2nat,
{
    let lead = run_len(bytes, pos, ByteClass::Whitespace);
    let start = pos + lead;
    if start >= bytes.len() || bytes[start as int] == CLOSE_PAREN {
        Parsed { used: lead, value: Ok(Seq::empty()) }
    } else {
        let first = argument(bytes, start);
        let gap = run_len(bytes, start + first.used, ByteClass::Whitespace);
        let comma = start + first.used + gap;
        match first.value {
            Err(error) => Parsed { used: lead + first.used, value: Err(error) },
            Ok(node) => if comma < bytes.len() && bytes[comma as int] == COMMA {
                let rest = arguments(bytes, comma + 1);
                Parsed {
                    used: lead + first.used + gap + 1 + rest.used,
                    value: prepend(node, rest.value),
                }
            } else {
                Parsed { used: lead + first.used + gap, value: Ok(seq![node]) }
            },
        }
    }
}

/// The error that says that `close` is missing at `pos`.
pub open spec fn missing_close(bytes: Seq<u8>, close: Seq<u8>, pos: nat) -> SyntaxErrorView {
    diagnostic(
        bytes,
        SyntaxErrorKindView::Expected(
            SyntaxErrorTokenView::String(decode_utf8(close)),
            SyntaxErrorTokenView::Eof,
        ),
        pos,
        help_to_add(decode_utf8(close)),
    )
}

/// The nodes of the template from `pos` on. Where `open` stands, an
/// expression follows, and `close` has to stand right after it. Everything
/// else is raw text, which reaches up to the next place at which `open`
/// stands. The first error ends the parse.
pub open spec fn template(bytes: Seq<u8>, open: Seq<u8>, close: Seq<u8>, pos: nat) -> Result<
    Seq<NodeView>,
    SyntaxErrorView,
>
    decreases remaining(bytes, pos),
    when open.len() > 0
{
    if pos >= bytes.len() {
        Ok(Seq::empty())
    } else if delimiter_at(bytes, open, pos) {
        let inner = expression(bytes, pos + open.len());
        let end = pos + open.len() + inner.used;
        match inner.value {
            Err(error) => Err(error),
            Ok(node) => if delimiter_at(bytes, close, end) {
                prepend(node, template(bytes, open, close, end + close.len()))
            } else {
                Err(missing_close(bytes, close, end))
            },
        }
    } else {
        let len = raw_text_len(bytes, open, pos);
        prepend(
            NodeView::RawText(text(bytes, pos, pos + len)),
            template(bytes, open, close, pos + len),
        )
    }
}

} // verus!
