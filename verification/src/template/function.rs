//! The errors and the result of a template function.

use vstd::prelude::*;
use vstd::string::*;
use vstd::std_specs::convert::FromSpecImpl;

use crate::decimal::{append_decimal, decimal};
use crate::helper::serialize::{FromArgsError, FromArgsErrorView};

verus! {

/// What a template function hands back: the text to put in its place, or
/// why it could not be computed.
pub type FuncResult = Result<String, FunctionError>;

/// Why a template function failed.
#[derive(Debug, PartialEq)]
pub enum FunctionError {
    /// An argument has a value that the function cannot work with.
    InvalidArgument(String),
    /// An argument does not have the type that the function asks for.
    InvalidType(String),
    /// The arguments could not be turned into typed values.
    ConvertArgsFailed(FromArgsError),
    /// The number of arguments given, and the number the function asks for.
    ArgumentsIncomplete(usize, usize),
    /// The function failed while it ran.
    RuntimeError(String),
}

/// What a [`FunctionError`] holds, as plain values.
pub enum FunctionErrorView {
    InvalidArgument(Seq<char>),
    InvalidType(Seq<char>),
    ConvertArgsFailed(FromArgsErrorView),
    ArgumentsIncomplete(nat, nat),
    RuntimeError(Seq<char>),
}

impl View for FunctionError {
    type V = FunctionErrorView;

    open spec fn view(&self) -> FunctionErrorView {
        match self {
            FunctionError::InvalidArgument(text) => FunctionErrorView::InvalidArgument(text@),
            FunctionError::InvalidType(text) => FunctionErrorView::InvalidType(text@),
            FunctionError::ConvertArgsFailed(error) => FunctionErrorView::ConvertArgsFailed(
                error@,
            ),
            FunctionError::ArgumentsIncomplete(given, wanted) => FunctionErrorView::ArgumentsIncomplete(
                *given as nat,
                *wanted as nat,
            ),
            FunctionError::RuntimeError(text) => FunctionErrorView::RuntimeError(text@),
        }
    }
}

impl FunctionErrorView {
    /// The error in words.
    pub open spec fn message(self) -> Seq<char> {
        match self {
            FunctionErrorView::InvalidArgument(text) => "Invalid Function Arguments "@ + text,
            FunctionErrorView::InvalidType(text) => "Invalid Function Argument Type for "@ + text,
            FunctionErrorView::ConvertArgsFailed(error) => "Convert type from arguments failed: "@
                + error.message(),
            FunctionErrorView::ArgumentsIncomplete(first, second) => "This function require "@
                + decimal(first) + " arguments, but found "@ + decimal(second),
            FunctionErrorView::RuntimeError(text) => "Error calling the function: "@ + text,
        }
    }
}

impl FunctionError {
    /// The error in words.
    pub fn to_string(&self) -> (text: String)
        ensures
            text@ == self@.message(),
    {
        match self {
            FunctionError::InvalidArgument(value) => {
                let mut text = String::from_str("Invalid Function Arguments ");
                text.append(value.as_str());
                text
            },
            FunctionError::InvalidType(value) => {
                let mut text = String::from_str("Invalid Function Argument Type for ");
                text.append(value.as_str());
                text
            },
            FunctionError::ConvertArgsFailed(error) => {
                let mut text = String::from_str("Convert type from arguments failed: ");
                let inner = error.to_string();
                text.append(inner.as_str());
                text
            },
            FunctionError::ArgumentsIncomplete(first, second) => {
                let mut text = String::from_str("This function require ");
                append_decimal(&mut text, *first as u128);
                text.append(" arguments, but found ");
                append_decimal(&mut text, *second as u128);
                text
            },
            FunctionError::RuntimeError(value) => {
                let mut text = String::from_str("Error calling the function: ");
                text.append(value.as_str());
                text
            },
        }
    }
}

impl From<FromArgsError> for FunctionError {
    fn from(error: FromArgsError) -> (converted: Self) {
        FunctionError::ConvertArgsFailed(error)
    }
}

impl FromSpecImpl<FromArgsError> for FunctionError {
    open spec fn obeys_from_spec() -> bool {
        true
    }

    open spec fn from_spec(error: FromArgsError) -> Self {
        FunctionError::ConvertArgsFailed(error)
    }
}

} // verus!
