//! Checks that a template function makes on its arguments.

use std::str::FromStr;

use vstd::prelude::*;

use crate::helper::arg::parse_text;
use crate::template::function::{FunctionError, FunctionErrorView};

verus! {

/// The result of a check.
pub type ValidationResult = Result<(), FunctionError>;

/// The view of the result of a check.
pub open spec fn validation_view(result: ValidationResult) -> Result<(), FunctionErrorView> {
    match result {
        Ok(()) => Ok(()),
        Err(error) => Err(error@),
    }
}

/// Checks that at least `expected` arguments are given. The error holds the
/// number of arguments given and `expected`, in this order.
pub fn args_min_len(args: &[String], expected: usize) -> (result: ValidationResult)
    ensures
        validation_view(result) == if expected > args@.len() {
            Err(FunctionErrorView::ArgumentsIncomplete(args@.len(), expected as nat))
        } else {
            Ok(())
        },
{
    if expected > args.len() {
        return Err(FunctionError::ArgumentsIncomplete(args.len(), expected));
    }
    Ok(())
}

/// Checks that at most `expected` arguments are given. The error holds the
/// number of arguments given and `expected`, in this order.
pub fn args_max_len(args: &[String], expected: usize) -> (result: ValidationResult)
    ensures
        validation_view(result) == if args@.len() > expected {
            Err(FunctionErrorView::ArgumentsIncomplete(args@.len(), expected as nat))
        } else {
            Ok(())
        },
{
    if args.len() > expected {
        return Err(FunctionError::ArgumentsIncomplete(args.len(), expected));
    }
    Ok(())
}

/// The result of the type check of `arg`, given whether it parsed: the
/// error holds the argument that did not parse.
pub fn type_checked(arg: String, parsed: bool) -> (result: ValidationResult)
    ensures
        validation_view(result) == if parsed {
            Ok(())
        } else {
            Err(FunctionErrorView::InvalidType(arg@))
        },
{
    if !parsed {
        return Err(FunctionError::InvalidType(arg));
    }
    Ok(())
}

/// Checks that `arg` parses as a `T`.
pub fn arg_type<T: FromStr>(arg: String) -> (result: ValidationResult)
    ensures
        validation_view(result) matches Err(error) ==> error == FunctionErrorView::InvalidType(arg@),
{
    let parsed = parse_text::<T>(arg.as_str()).is_some();
    type_checked(arg, parsed)
}

} // verus!
