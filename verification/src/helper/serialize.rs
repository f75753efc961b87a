//! Turning the string arguments of a template function into typed values.

use vstd::prelude::*;
use vstd::string::*;

use crate::decimal::{append_decimal, decimal};

verus! {

/// Why a list of arguments could not be turned into typed values.
#[derive(Debug, PartialEq)]
pub enum FromArgsError {
    /// The argument does not have the wanted type.
    BadType(String),
    /// No argument stands at the index at which one of the named type is wanted.
    ArgumentNotExists(String, usize),
    /// The argument at the index could not be parsed.
    ParseFailed(usize),
}

/// What a [`FromArgsError`] holds, as plain values.
pub enum FromArgsErrorView {
    BadType(Seq<char>),
    ArgumentNotExists(Seq<char>, nat),
    ParseFailed(nat),
}

impl View for FromArgsError {
    type V = FromArgsErrorView;

    open spec fn view(&self) -> FromArgsErrorView {
        match self {
            FromArgsError::BadType(text) => FromArgsErrorView::BadType(text@),
            FromArgsError::ArgumentNotExists(name, index) => FromArgsErrorView::ArgumentNotExists(
                name@,
                *index as nat,
            ),
            FromArgsError::ParseFailed(index) => FromArgsErrorView::ParseFailed(*index as nat),
        }
    }
}

impl FromArgsErrorView {
    /// The error in words.
    pub open spec fn message(self) -> Seq<char> {
        match self {
            FromArgsErrorView::BadType(text) => "Invalid Type: "@ + text,
            FromArgsErrorView::ArgumentNotExists(name, index) => "Argument of type \""@ + name
                + "\" not exists, argument index: "@ + decimal(index),
            FromArgsErrorView::ParseFailed(index) => "Parse Variable Failed in position: "@
                + decimal(index),
        }
    }
}

impl FromArgsError {
    /// The error in words.
    pub fn to_string(&self) -> (text: String)
        ensures
            text@ == self@.message(),
    {
        match self {
            FromArgsError::BadType(value) => {
                let mut text = String::from_str("Invalid Type: ");
                text.append(value.as_str());
                text
            },
            FromArgsError::ArgumentNotExists(name, index) => {
                let mut text = String::from_str("Argument of type \"");
                text.append(name.as_str());
                text.append("\" not exists, argument index: ");
                append_decimal(&mut text, *index as u128);
                text
            },
            FromArgsError::ParseFailed(index) => {
                let mut text = String::from_str("Parse Variable Failed in position: ");
                append_decimal(&mut text, *index as u128);
                text
            },
        }
    }
}

pub type FromArgsResult<T> = Result<T, FromArgsError>;

/// A value that can be built from the string arguments of a template
/// function.
pub trait FromArgs {
    /// Builds the value from `args`, or says which argument stood in the way.
    fn from_args(args: &[String]) -> FromArgsResult<Self> where Self: Sized;
}

} // verus!
