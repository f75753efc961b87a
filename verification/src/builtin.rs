//! The functions that a context knows from the start, and what they share.

use vstd::prelude::*;

use crate::helper::serialize::{FromArgs, FromArgsResult};
use crate::template::function::FunctionError;

pub mod math;
pub mod text;

verus! {

/// The result of a conversion as the result of a function.
pub open spec fn converted<T>(typed: FromArgsResult<T>) -> Result<T, FunctionError> {
    match typed {
        Ok(value) => Ok(value),
        Err(error) => Err(FunctionError::ConvertArgsFailed(error)),
    }
}

/// The arguments as a `T`: what `T::from_args` makes of them, with its
/// error as the error of a function.
pub fn to_typed_args<T: FromArgs>(args: &[String]) -> (result: Result<T, FunctionError>)
    ensures
        exists|typed: FromArgsResult<T>| #[trigger]
            call_ensures(T::from_args, (args,), typed) && result == converted(typed),
{
    let typed = T::from_args(args);
    assert(call_ensures(T::from_args, (args,), typed));
    match typed {
        Ok(value) => Ok(value),
        Err(error) => Err(FunctionError::from(error)),
    }
}

} // verus!
