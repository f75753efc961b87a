//! Diagnostics of the parser: what went wrong, and where in the input.

use vstd::prelude::*;
use vstd::string::*;
use vstd::utf8::*;

use crate::decimal::{append_decimal, decimal, decimal_text};
use crate::error::{Error, ErrorView};
use crate::parser::text::{
    lemma_boundary_after_ascii,
    lemma_boundary_at_leading_byte,
    slice_text,
    text,
};

verus! {

/// What the parser expected or found at a place.
#[derive(Clone, Debug, PartialEq)]
pub enum SyntaxErrorToken {
    /// The end of the input.
    Eof,
    /// One character.
    Char(char),
    /// A piece of text.
    String(String),
}

/// The kinds of syntax error.
#[derive(Clone, Debug, PartialEq)]
pub enum SyntaxErrorKind {
    /// The first token was expected where the second was found.
    Expected(SyntaxErrorToken, SyntaxErrorToken),
    /// A number literal is followed by a character that may not follow it.
    InvalidNumber,
    /// The arguments of a function are not closed by `)`.
    UnterminatedArgument,
    /// A string literal is not closed by `"`.
    UnterminatedString,
    /// A number literal holds a second `.`.
    FloatDotted,
}

/// A syntax error with its place in the input.
#[derive(Clone, Debug, PartialEq)]
pub struct SyntaxError {
    /// What went wrong.
    pub kind: SyntaxErrorKind,
    /// The byte offset that the error is reported at.
    pub at: usize,
    /// The line of the input that holds the offset.
    pub context: String,
    /// The number of line breaks before the offset.
    pub line: usize,
    /// The number of bytes between the start of the line and the offset.
    pub column: usize,
    /// A hint on how to mend the input; may be empty.
    pub help: String,
}

/// What a [`SyntaxErrorToken`] holds, as plain values.
pub enum SyntaxErrorTokenView {
    Eof,
    Char(char),
    String(Seq<char>),
}

/// What a [`SyntaxErrorKind`] holds, as plain values.
pub enum SyntaxErrorKindView {
    Expected(SyntaxErrorTokenView, SyntaxErrorTokenView),
    InvalidNumber,
    UnterminatedArgument,
    UnterminatedString,
    FloatDotted,
}

/// What a [`SyntaxError`] holds, as plain values.
pub struct SyntaxErrorView {
    pub kind: SyntaxErrorKindView,
    pub at: nat,
    pub context: Seq<char>,
    pub line: nat,
    pub column: nat,
    pub help: Seq<char>,
}

impl View for SyntaxErrorToken {
    type V = SyntaxErrorTokenView;

    open spec fn view(&self) -> SyntaxErrorTokenView {
        match self {
            SyntaxErrorToken::Eof => SyntaxErrorTokenView::Eof,
            SyntaxErrorToken::Char(c) => SyntaxErrorTokenView::Char(*c),
            SyntaxErrorToken::String(text) => SyntaxErrorTokenView::String(text@),
        }
    }
}

impl View for SyntaxErrorKind {
    type V = SyntaxErrorKindView;

    open spec fn view(&self) -> SyntaxErrorKindView {
        match self {
            SyntaxErrorKind::Expected(expected, found) => SyntaxErrorKindView::Expected(
                expected@,
                found@,
            ),
            SyntaxErrorKind::InvalidNumber => SyntaxErrorKindView::InvalidNumber,
            SyntaxErrorKind::UnterminatedArgument => SyntaxErrorKindView::UnterminatedArgument,
            SyntaxErrorKind::UnterminatedString => SyntaxErrorKindView::UnterminatedString,
            SyntaxErrorKind::FloatDotted => SyntaxErrorKindView::FloatDotted,
        }
    }
}

impl View for SyntaxError {
    type V = SyntaxErrorView;

    open spec fn view(&self) -> SyntaxErrorView {
        SyntaxErrorView {
            kind: self.kind@,
            at: self.at as nat,
            context: self.context@,
            line: self.line as nat,
            column: self.column as nat,
            help: self.help@,
        }
    }
}

/// The text of one character, from `String::from` of std.
#[verifier::external_body]
fn char_text(c: char) -> (text: String)
    ensures
        text@ == seq![c],
{
    String::from(c)
}

/// `count` spaces.
pub open spec fn spaces(count: nat) -> Seq<char> {
    Seq::new(count, |i: int| ' ')
}

/// Appends `count` spaces to `text`.
fn append_spaces(text: &mut String, count: usize)
    ensures
        final(text)@ == old(text)@ + spaces(count as nat),
{
    proof {
        reveal_strlit(" ");
    }
    let mut done: usize = 0;
    assert(old(text)@ + spaces(0) =~= old(text)@);
    while done < count
        invariant
            done <= count,
            " "@ == seq![' '],
            text@ == old(text)@ + spaces(done as nat),
        decreases count - done,
    {
        text.append(" ");
        done = done + 1;
        assert(old(text)@ + spaces((done - 1) as nat) + seq![' '] =~= old(text)@ + spaces(
            done as nat,
        ));
    }
}

impl SyntaxErrorTokenView {
    /// The token in words.
    pub open spec fn message(self) -> Seq<char> {
        match self {
            SyntaxErrorTokenView::Eof => "end of input"@,
            SyntaxErrorTokenView::Char(c) => "\""@ + seq![c] + "\""@,
            SyntaxErrorTokenView::String(text) => "\""@ + text + "\""@,
        }
    }
}

impl SyntaxErrorToken {
    /// The token in words.
    pub fn to_string(&self) -> (text: String)
        ensures
            text@ == self@.message(),
    {
        match self {
            SyntaxErrorToken::Eof => String::from_str("end of input"),
            SyntaxErrorToken::Char(c) => {
                let mut text = String::from_str("\"");
                let inner = char_text(*c);
                text.append(inner.as_str());
                text.append("\"");
                text
            },
            SyntaxErrorToken::String(value) => {
                let mut text = String::from_str("\"");
                text.append(value.as_str());
                text.append("\"");
                text
            },
        }
    }
}

impl SyntaxErrorKindView {
    /// The kind of error in words.
    pub open spec fn message(self) -> Seq<char> {
        match self {
            SyntaxErrorKindView::Expected(expected, found) => "Expected "@ + expected.message()
                + ", but found "@ + found.message(),
            SyntaxErrorKindView::InvalidNumber => "Invalid character in Number literal"@,
            SyntaxErrorKindView::UnterminatedArgument => "Unterminated function arguments"@,
            SyntaxErrorKindView::UnterminatedString => "Unterminated string literal"@,
            SyntaxErrorKindView::FloatDotted => "Expected one '.' in a float"@,
        }
    }
}

impl SyntaxErrorKind {
    /// The kind of error in words.
    pub fn to_string(&self) -> (text: String)
        ensures
            text@ == self@.message(),
    {
        match self {
            SyntaxErrorKind::Expected(expected, found) => {
                let mut text = String::from_str("Expected ");
                let first = expected.to_string();
                text.append(first.as_str());
                text.append(", but found ");
                let second = found.to_string();
                text.append(second.as_str());
                text
            },
            SyntaxErrorKind::InvalidNumber => String::from_str(
                "Invalid character in Number literal",
            ),
            SyntaxErrorKind::UnterminatedArgument => String::from_str(
                "Unterminated function arguments",
            ),
            SyntaxErrorKind::UnterminatedString => String::from_str("Unterminated string literal"),
            SyntaxErrorKind::FloatDotted => String::from_str("Expected one '.' in a float"),
        }
    }
}

impl SyntaxErrorView {
    /// The error as it is shown: what went wrong, the line and the column,
    /// the line of the input, and under it a mark at the column with the
    /// hint. The colours are ANSI escape sequences.
    pub open spec fn message(self) -> Seq<char> {
        "\x1b[1;91mSyntaxError:\x1b[0m "@ + self.kind.message() + "\n"@
            + " \x1b[1;34m-->\x1b[0m "@ + decimal(self.line) + ":"@ + decimal(self.column) + "\n"@
            + "\x1b[1;34m "@ + decimal(self.line) + " | \x1b[0m"@ + self.context + "\n"@
            + " "@ + spaces(decimal(self.line).len()) + "   "@ + spaces(self.column)
            + "\x1b[1;91m^ "@ + self.help + "\x1b[0m\n"@
    }
}

impl SyntaxError {
    /// The error as it is shown on a terminal.
    pub fn to_string(&self) -> (text: String)
        ensures
            text@ == self@.message(),
    {
        let line = decimal_text(self.line as u128);
        let kind = self.kind.to_string();
        let mut text = String::from_str("\x1b[1;91mSyntaxError:\x1b[0m ");
        text.append(kind.as_str());
        text.append("\n");
        text.append(" \x1b[1;34m-->\x1b[0m ");
        text.append(line.as_str());
        text.append(":");
        append_decimal(&mut text, self.column as u128);
        text.append("\n");
        text.append("\x1b[1;34m ");
        text.append(line.as_str());
        text.append(" | \x1b[0m");
        text.append(self.context.as_str());
        text.append("\n");
        text.append(" ");
        append_spaces(&mut text, line.as_str().unicode_len());
        text.append("   ");
        append_spaces(&mut text, self.column);
        text.append("\x1b[1;91m^ ");
        text.append(self.help.as_str());
        text.append("\x1b[0m\n");
        text
    }
}

/// The byte that ends a line.
pub const NEWLINE: u8 = 0x0a;

/// The number of line breaks among the first `offset` bytes.
pub open spec fn newlines_before(bytes: Seq<u8>, offset: nat) -> nat
    decreases offset,
{
    if offset == 0 {
        0
    } else if bytes[offset - 1] == NEWLINE {
        newlines_before(bytes, (offset - 1) as nat) + 1
    } else {
        newlines_before(bytes, (offset - 1) as nat)
    }
}

/// Where the line that holds `offset` starts: right after the last line
/// break before `offset`, or at 0.
pub open spec fn line_start(bytes: Seq<u8>, offset: nat) -> nat
    decreases offset,
{
    if offset == 0 {
        0
    } else if bytes[offset - 1] == NEWLINE {
        offset
    } else {
        line_start(bytes, (offset - 1) as nat)
    }
}

/// Where the line that holds `offset` ends: at the first line break at or
/// after `offset`, or at the end of the input.
pub open spec fn line_end(bytes: Seq<u8>, offset: nat) -> nat
    decreases bytes.len() - offset,
{
    if offset >= bytes.len() {
        bytes.len()
    } else if bytes[offset as int] == NEWLINE {
        offset
    } else {
        line_end(bytes, offset + 1)
    }
}

/// The diagnostic for an error of `kind` at byte `at` of `bytes`.
pub open spec fn diagnostic(
    bytes: Seq<u8>,
    kind: SyntaxErrorKindView,
    at: nat,
    help: Seq<char>,
) -> SyntaxErrorView {
    SyntaxErrorView {
        kind,
        at,
        context: text(bytes, line_start(bytes, at), line_end(bytes, at)),
        line: newlines_before(bytes, at),
        column: (at - line_start(bytes, at)) as nat,
        help,
    }
}

/// The hint that goes with a missing piece of text.
pub open spec fn help_to_add(expected: Seq<char>) -> Seq<char> {
    "help: add \""@ + expected + "\""@
}

/// The line, the column and the text of the line of byte `offset` in
/// `input`. Lines and columns count from 0, in bytes.
pub fn get_line_from_offset(input: &str, offset: usize) -> (place: (usize, usize, String))
    requires
        offset <= input.spec_bytes().len(),
    ensures
        place.0 == newlines_before(input.spec_bytes(), offset as nat),
        place.1 == offset - line_start(input.spec_bytes(), offset as nat),
        place.2@ == text(
            input.spec_bytes(),
            line_start(input.spec_bytes(), offset as nat),
            line_end(input.spec_bytes(), offset as nat),
        ),
{
    broadcast use encode_utf8_valid_utf8;

    let chars = input.as_bytes();
    let ghost bytes = input.spec_bytes();
    let mut line: usize = 0;
    let mut start: usize = 0;
    let mut index: usize = 0;
    while index < offset
        invariant
            chars@ == bytes,
            valid_utf8(bytes),
            index <= offset <= bytes.len(),
            line <= index,
            start <= index,
            line == newlines_before(bytes, index as nat),
            start == line_start(bytes, index as nat),
            is_char_boundary(bytes, start as int),
        decreases offset - index,
    {
        if chars[index] == NEWLINE {
            line = line + 1;
            start = index + 1;
            proof {
                lemma_boundary_after_ascii(bytes, index + 1);
            }
        }
        index = index + 1;
    }
    let mut end: usize = offset;
    while end < chars.len() && chars[end] != NEWLINE
        invariant
            chars@ == bytes,
            offset <= end <= bytes.len(),
            line_end(bytes, offset as nat) == line_end(bytes, end as nat),
        decreases bytes.len() - end,
    {
        end = end + 1;
    }
    proof {
        if end < bytes.len() {
            lemma_boundary_at_leading_byte(bytes, end as int);
        } else {
            is_char_boundary_start_end_of_seq(bytes);
        }
    }
    let context = slice_text(input, start, end).to_owned();
    (line, offset - start, context)
}

impl SyntaxErrorKind {
    /// The error of this kind at byte `at` of `input`.
    pub fn into_error(self, input: &str, at: usize) -> (error: Error)
        requires
            at <= input.spec_bytes().len(),
        ensures
            error@ == ErrorView::BadSyntax(
                diagnostic(input.spec_bytes(), self@, at as nat, Seq::empty()),
            ),
    {
        let (line, column, context) = get_line_from_offset(input, at);
        Error::BadSyntax(
            SyntaxError { kind: self, at, context, line, column, help: String::new() },
        )
    }
}

impl SyntaxError {
    /// The error that says that `expected` should stand at byte `at` of
    /// `input`, where the expression ends instead.
    pub fn found_eof(input: &str, at: usize, expected: &str) -> (error: Error)
        requires
            at <= input.spec_bytes().len(),
        ensures
            error@ == ErrorView::BadSyntax(
                diagnostic(
                    input.spec_bytes(),
                    SyntaxErrorKindView::Expected(
                        SyntaxErrorTokenView::String(expected@),
                        SyntaxErrorTokenView::Eof,
                    ),
                    at as nat,
                    help_to_add(expected@),
                ),
            ),
    {
        let (line, column, context) = get_line_from_offset(input, at);
        let mut help = String::from_str("help: add \"");
        help.append(expected);
        help.append("\"");
        Error::BadSyntax(
            SyntaxError {
                help,
                kind: SyntaxErrorKind::Expected(
                    SyntaxErrorToken::String(expected.to_owned()),
                    SyntaxErrorToken::Eof,
                ),
                at,
                context,
                line,
                column,
            },
        )
    }
}

} // verus!
