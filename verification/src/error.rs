//! The errors of a render.

use vstd::prelude::*;
use vstd::string::*;
use vstd::std_specs::convert::FromSpecImpl;

use crate::parser::error::{SyntaxError, SyntaxErrorView};
use crate::template::function::{FunctionError, FunctionErrorView};

verus! {

/// Why a template could not be rendered.
#[derive(Debug, PartialEq)]
pub enum Error {
    /// The template is not well formed.
    BadSyntax(SyntaxError),
    /// The template names a variable that the context does not hold.
    VariableNotFound(String),
    /// The template calls a function that the context does not hold.
    FunctionNotImplemented(String),
    /// A function that the template calls failed.
    Function(FunctionError),
}

/// What an [`Error`] holds, as plain values.
pub enum ErrorView {
    BadSyntax(SyntaxErrorView),
    VariableNotFound(Seq<char>),
    FunctionNotImplemented(Seq<char>),
    Function(FunctionErrorView),
}

impl View for Error {
    type V = ErrorView;

    open spec fn view(&self) -> ErrorView {
        match self {
            Error::BadSyntax(error) => ErrorView::BadSyntax(error@),
            Error::VariableNotFound(name) => ErrorView::VariableNotFound(name@),
            Error::FunctionNotImplemented(name) => ErrorView::FunctionNotImplemented(name@),
            Error::Function(error) => ErrorView::Function(error@),
        }
    }
}

impl ErrorView {
    /// The error in words.
    pub open spec fn message(self) -> Seq<char> {
        match self {
            ErrorView::BadSyntax(error) => error.message(),
            ErrorView::VariableNotFound(name) => "Variable not found: "@ + name,
            ErrorView::FunctionNotImplemented(name) => "Function not implemented: "@ + name,
            ErrorView::Function(error) => "Error Processing Function: "@ + error.message(),
        }
    }
}

impl Error {
    /// The error in words. A syntax error is shown with the line that it
    /// lies in.
    pub fn to_string(&self) -> (text: String)
        ensures
            text@ == self@.message(),
    {
        match self {
            Error::BadSyntax(error) => error.to_string(),
            Error::VariableNotFound(name) => {
                let mut text = String::from_str("Variable not found: ");
                text.append(name.as_str());
                text
            },
            Error::FunctionNotImplemented(name) => {
                let mut text = String::from_str("Function not implemented: ");
                text.append(name.as_str());
                text
            },
            Error::Function(error) => {
                let mut text = String::from_str("Error Processing Function: ");
                let inner = error.to_string();
                text.append(inner.as_str());
                text
            },
        }
    }
}

impl From<FunctionError> for Error {
    fn from(error: FunctionError) -> (converted: Self) {
        Error::Function(error)
    }
}

impl FromSpecImpl<FunctionError> for Error {
    open spec fn obeys_from_spec() -> bool {
        true
    }

    open spec fn from_spec(error: FunctionError) -> Self {
        Error::Function(error)
    }
}

} // verus!
