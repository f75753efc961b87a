//! Tuples of typed values from the arguments of a template function.
//!
//! A tuple takes one argument for each of its elements, in order: element
//! `i` is parsed from argument `i`. Arguments beyond the last element are
//! not looked at. There is one function for each number of elements from 1
//! to 16.

use std::str::FromStr;

use vstd::prelude::*;

use crate::helper::serialize::{FromArgsError, FromArgsErrorView, FromArgsResult};

verus! {

/// The name under which a missing argument for element `index` of a tuple
/// is reported.
pub open spec fn element_name(index: nat) -> Seq<char> {
    if index == 0 {
        "A"@
    } else if index == 1 {
        "B"@
    } else if index == 2 {
        "C"@
    } else if index == 3 {
        "D"@
    } else if index == 4 {
        "E"@
    } else if index == 5 {
        "F"@
    } else if index == 6 {
        "G"@
    } else if index == 7 {
        "H"@
    } else if index == 8 {
        "I"@
    } else if index == 9 {
        "J"@
    } else if index == 10 {
        "K"@
    } else if index == 11 {
        "L"@
    } else if index == 12 {
        "M"@
    } else if index == 13 {
        "N"@
    } else if index == 14 {
        "O"@
    } else if index == 15 {
        "P"@
    } else {
        Seq::empty()
    }
}

/// The view of a typed argument or of the error in its place.
pub open spec fn typed_view<T>(result: FromArgsResult<T>) -> Result<T, FromArgsErrorView> {
    match result {
        Ok(value) => Ok(value),
        Err(error) => Err(error@),
    }
}

/// Whether `error` can come of building a tuple of `arity` elements from
/// `len` arguments: an argument that is there did not parse, or the first
/// element without an argument is reported as missing.
pub open spec fn tuple_failure(error: FromArgsErrorView, len: nat, arity: nat) -> bool {
    match error {
        FromArgsErrorView::ParseFailed(index) => index < len && index < arity,
        FromArgsErrorView::ArgumentNotExists(name, index) => len < arity && index == len && name
            == element_name(len),
        FromArgsErrorView::BadType(_) => false,
    }
}

/// `text` as a `T`, from `str::parse` of std, or `None` where it does not
/// parse. The answer is that of the `FromStr` impl of `T`, of which nothing
/// is known here.
#[verifier::external_body]
pub(crate) fn parse_text<T: FromStr>(text: &str) -> Option<T> {
    text.parse::<T>().ok()
}

/// The typed argument at `index`, given what parsing it gave.
pub fn parsed_argument<T>(parsed: Option<T>, index: usize) -> (result: FromArgsResult<T>)
    ensures
        typed_view(result) == match parsed {
            Some(value) => Ok(value),
            None => Err(FromArgsErrorView::ParseFailed(index as nat)),
        },
{
    match parsed {
        Some(value) => Ok(value),
        None => Err(FromArgsError::ParseFailed(index)),
    }
}

/// The argument at `index` as a `T`. Where there is no such argument, the
/// error names `kind`; where it does not parse, the error holds `index`.
pub fn argument<T: FromStr>(args: &[String], index: usize, kind: &str) -> (result: FromArgsResult<T>)
    ensures
        index >= args@.len() ==> typed_view(result) == Err::<T, FromArgsErrorView>(
            FromArgsErrorView::ArgumentNotExists(kind@, index as nat),
        ),
        index < args@.len() ==> (result matches Err(error) ==> error@
            == FromArgsErrorView::ParseFailed(index as nat)),
{
    if index >= args.len() {
        return Err(FromArgsError::ArgumentNotExists(kind.to_owned(), index));
    }
    parsed_argument(parse_text::<T>(args[index].as_str()), index)
}

/// The first argument as a tuple of 1 element.
pub fn from_args_1<A: FromStr>(args: &[String]) -> (result: FromArgsResult<(A,)>)
    ensures
        result is Ok ==> args@.len() >= 1,
        result matches Err(error) ==> tuple_failure(error@, args@.len(), 1),
{
    let a = match argument::<A>(args, 0, "A") {
        Ok(value) => value,
        Err(error) => {
            return Err(error);
        },
    };
    Ok((a,))
}

/// The first 2 arguments as a tuple of 2 elements.
pub fn from_args_2<A: FromStr, B: FromStr>(args: &[String]) -> (result: FromArgsResult<(A, B)>)
    ensures
        result is Ok ==> args@.len() >= 2,
        result matches Err(error) ==> tuple_failure(error@, args@.len(), 2),
{
    let a = match argument::<A>(args, 0, "A") {
        Ok(value) => value,
        Err(error) => {
            return Err(error);
        },
    };
    let b = match argument::<B>(args, 1, "B") {
        Ok(value) => value,
        Err(error) => {
            return Err(error);
        },
    };
    Ok((a, b))
}

/// The first 3 arguments as a tuple of 3 elements.
pub fn from_args_3<A: FromStr, B: FromStr, C: FromStr>(args: &[String]) -> (result: FromArgsResult<(A, B, C)>)
    ensures
        result is Ok ==> args@.len() >= 3,
        result matches Err(error) ==> tuple_failure(error@, args@.len(), 3),
{
    let a = match argument::<A>(args, 0, "A") {
        Ok(value) => value,
        Err(error) => {
            return Err(error);
        },
    };
    let b = match argument::<B>(args, 1, "B") {
        Ok(value) => value,
        Err(error) => {
            return Err(error);
        },
    };
    let c = match argument::<C>(args, 2, "C") {
        Ok(value) => value,
        Err(error) => {
            return Err(error);
        },
    };
    Ok((a, b, c))
}

/// The first 4 arguments as a tuple of 4 elements.
pub fn from_args_4<A: FromStr, B: FromStr, C: FromStr, D: FromStr>(args: &[String]) -> (result: FromArgsResult<(A, B, C, D)>)
    ensures
        result is Ok ==> args@.len() >= 4,
        result matches Err(error) ==> tuple_failure(error@, args@.len(), 4),
{
    let a = match argument::<A>(args, 0, "A") {
        Ok(value) => value,
        Err(error) => {
            return Err(error);
        },
    };
    let b = match argument::<B>(args, 1, "B") {
        Ok(value) => value,
        Err(error) => {
            return Err(error);
        },
    };
    let c = match argument::<C>(args, 2, "C") {
        Ok(value) => value,
        Err(error) => {
            return Err(error);
        },
    };
    let d = match argument::<D>(args, 3, "D") {
        Ok(value) => value,
        Err(error) => {
            return Err(error);
        },
    };
    Ok((a, b, c, d))
}

/// The first 5 arguments as a tuple of 5 elements.
pub fn from_args_5<A: FromStr, B: FromStr, C: FromStr, D: FromStr, E: FromStr>(args: &[String]) -> (result: FromArgsResult<(A, B, C, D, E)>)
    ensures
        result is Ok ==> args@.len() >= 5,
        result matches Err(error) ==> tuple_failure(error@, args@.len(), 5),
{
    let a = match argument::<A>(args, 0, "A") {
        Ok(value) => value,
        Err(error) => {
            return Err(error);
        },
    };
    let b = match argument::<B>(args, 1, "B") {
        Ok(value) => value,
        Err(error) => {
            return Err(error);
        },
    };
    let c = match argument::<C>(args, 2, "C") {
        Ok(value) => value,
        Err(error) => {
            return Err(error);
        },
    };
    let d = match argument::<D>(args, 3, "D") {
        Ok(value) => value,
        Err(error) => {
            return Err(error);
        },
    };
    let e = match argument::<E>(args, 4, "E") {
        Ok(value) => value,
        Err(error) => {
            return Err(error);
        },
    };
    Ok((a, b, c, d, e))
}

/// The first 6 arguments as a tuple of 6 elements.
pub fn from_args_6<A: FromStr, B: FromStr, C: FromStr, D: FromStr, E: FromStr, F: FromStr>(args: &[String]) -> (result: FromArgsResult<(A, B, C, D, E, F)>)
    ensures
        result is Ok ==> args@.len() >= 6,
        result matches Err(error) ==> tuple_failure(error@, args@.len(), 6),
{
    let a = match argument::<A>(args, 0, "A") {
        Ok(value) => value,
        Err(error) => {
            return Err(error);
        },
    };
    let b = match argument::<B>(args, 1, "B") {
        Ok(value) => value,
        Err(error) => {
            return Err(error);
        },
    };
    let c = match argument::<C>(args, 2, "C") {
        Ok(value) => value,
        Err(error) => {
            return Err(error);
        },
    };
    let d = match argument::<D>(args, 3, "D") {
        Ok(value) => value,
        Err(error) => {
            return Err(error);
        },
    };
    let e = match argument::<E>(args, 4, "E") {
        Ok(value) => value,
        Err(error) => {
            return Err(error);
        },
    };
    let f = match argument::<F>(args, 5, "F") {
        Ok(value) => value,
        Err(error) => {
            return Err(error);
        },
    };
    Ok((a, b, c, d, e, f))
}

/// The first 7 arguments as a tuple of 7 elements.
pub fn from_args_7<A: FromStr, B: FromStr, C: FromStr, D: FromStr, E: FromStr, F: FromStr, G: FromStr>(args: &[String]) -> (result: FromArgsResult<(A, B, C, D, E, F, G)>)
    ensures
        result is Ok ==> args@.len() >= 7,
        result matches Err(error) ==> tuple_failure(error@, args@.len(), 7),
{
    let a = match argument::<A>(args, 0, "A") {
        Ok(value) => value,
        Err(error) => {
            return Err(error);
        },
    };
    let b = match argument::<B>(args, 1, "B") {
        Ok(value) => value,
        Err(error) => {
            return Err(error);
        },
    };
    let c = match argument::<C>(args, 2, "C") {
        Ok(value) => value,
        Err(error) => {
            return Err(error);
        },
    };
    let d = match argument::<D>(args, 3, "D") {
        Ok(value) => value,
        Err(error) => {
            return Err(error);
        },
    };
    let e = match argument::<E>(args, 4, "E") {
        Ok(value) => value,
        Err(error) => {
            return Err(error);
        },
    };
    let f = match argument::<F>(args, 5, "F") {
        Ok(value) => value,
        Err(error) => {
            return Err(error);
        },
    };
    let g = match argument::<G>(args, 6, "G") {
        Ok(value) => value,
        Err(error) => {
            return Err(error);
        },
    };
    Ok((a, b, c, d, e, f, g))
}

/// The first 8 arguments as a tuple of 8 elements.
pub fn from_args_8<A: FromStr, B: FromStr, C: FromStr, D: FromStr, E: FromStr, F: FromStr, G: FromStr, H: FromStr>(args: &[String]) -> (result: FromArgsResult<(A, B, C, D, E, F, G, H)>)
    ensures
        result is Ok ==> args@.len() >= 8,
        result matches Err(error) ==> tuple_failure(error@, args@.len(), 8),
{
    let a = match argument::<A>(args, 0, "A") {
        Ok(value) => value,
        Err(error) => {
            return Err(error);
        },
    };
    let b = match argument::<B>(args, 1, "B") {
        Ok(value) => value,
        Err(error) => {
            return Err(error);
        },
    };
    let c = match argument::<C>(args, 2, "C") {
        Ok(value) => value,
        Err(error) => {
            return Err(error);
        },
    };
    let d = match argument::<D>(args, 3, "D") {
        Ok(value) => value,
        Err(error) => {
            return Err(error);
        },
    };
    let e = match argument::<E>(args, 4, "E") {
        Ok(value) => value,
        Err(error) => {
            return Err(error);
        },
    };
    let f = match argument::<F>(args, 5, "F") {
        Ok(value) => value,
        Err(error) => {
            return Err(error);
        },
    };
    let g = match argument::<G>(args, 6, "G") {
        Ok(value) => value,
        Err(error) => {
            return Err(error);
        },
    };
    let h = match argument::<H>(args, 7, "H") {
        Ok(value) => value,
        Err(error) => {
            return Err(error);
        },
    };
    Ok((a, b, c, d, e, f, g, h))
}

/// The first 9 arguments as a tuple of 9 elements.
pub fn from_args_9<A: FromStr, B: FromStr, C: FromStr, D: FromStr, E: FromStr, F: FromStr, G: FromStr, H: FromStr, I: FromStr>(args: &[String]) -> (result: FromArgsResult<(A, B, C, D, E, F, G, H, I)>)
    ensures
        result is Ok ==> args@.len() >= 9,
        result matches Err(error) ==> tuple_failure(error@, args@.len(), 9),
{
    let a = match argument::<A>(args, 0, "A") {
        Ok(value) => value,
        Err(error) => {
            return Err(error);
        },
    };
    let b = match argument::<B>(args, 1, "B") {
        Ok(value) => value,
        Err(error) => {
            return Err(error);
        },
    };
    let c = match argument::<C>(args, 2, "C") {
        Ok(value) => value,
        Err(error) => {
            return Err(error);
        },
    };
    let d = match argument::<D>(args, 3, "D") {
        Ok(value) => value,
        Err(error) => {
            return Err(error);
        },
    };
    let e = match argument::<E>(args, 4, "E") {
        Ok(value) => value,
        Err(error) => {
            return Err(error);
        },
    };
    let f = match argument::<F>(args, 5, "F") {
        Ok(value) => value,
        Err(error) => {
            return Err(error);
        },
    };
    let g = match argument::<G>(args, 6, "G") {
        Ok(value) => value,
        Err(error) => {
            return Err(error);
        },
    };
    let h = match argument::<H>(args, 7, "H") {
        Ok(value) => value,
        Err(error) => {
            return Err(error);
        },
    };
    let i = match argument::<I>(args, 8, "I") {
        Ok(value) => value,
        Err(error) => {
            return Err(error);
        },
    };
    Ok((a, b, c, d, e, f, g, h, i))
}

/// The first 10 arguments as a tuple of 10 elements.
pub fn from_args_10<A: FromStr, B: FromStr, C: FromStr, D: FromStr, E: FromStr, F: FromStr, G: FromStr, H: FromStr, I: FromStr, J: FromStr>(args: &[String]) -> (result: FromArgsResult<(A, B, C, D, E, F, G, H, I, J)>)
    ensures
        result is Ok ==> args@.len() >= 10,
        result matches Err(error) ==> tuple_failure(error@, args@.len(), 10),
{
    let a = match argument::<A>(args, 0, "A") {
        Ok(value) => value,
        Err(error) => {
            return Err(error);
        },
    };
    let b = match argument::<B>(args, 1, "B") {
        Ok(value) => value,
        Err(error) => {
            return Err(error);
        },
    };
    let c = match argument::<C>(args, 2, "C") {
        Ok(value) => value,
        Err(error) => {
            return Err(error);
        },
    };
    let d = match argument::<D>(args, 3, "D") {
        Ok(value) => value,
        Err(error) => {
            return Err(error);
        },
    };
    let e = match argument::<E>(args, 4, "E") {
        Ok(value) => value,
        Err(error) => {
            return Err(error);
        },
    };
    let f = match argument::<F>(args, 5, "F") {
        Ok(value) => value,
        Err(error) => {
            return Err(error);
        },
    };
    let g = match argument::<G>(args, 6, "G") {
        Ok(value) => value,
        Err(error) => {
            return Err(error);
        },
    };
    let h = match argument::<H>(args, 7, "H") {
        Ok(value) => value,
        Err(error) => {
            return Err(error);
        },
    };
    let i = match argument::<I>(args, 8, "I") {
        Ok(value) => value,
        Err(error) => {
            return Err(error);
        },
    };
    let j = match argument::<J>(args, 9, "J") {
        Ok(value) => value,
        Err(error) => {
            return Err(error);
        },
    };
    Ok((a, b, c, d, e, f, g, h, i, j))
}

/// The first 11 arguments as a tuple of 11 elements.
pub fn from_args_11<A: FromStr, B: FromStr, C: FromStr, D: FromStr, E: FromStr, F: FromStr, G: FromStr, H: FromStr, I: FromStr, J: FromStr, K: FromStr>(args: &[String]) -> (result: FromArgsResult<(A, B, C, D, E, F, G, H, I, J, K)>)
    ensures
        result is Ok ==> args@.len() >= 11,
        result matches Err(error) ==> tuple_failure(error@, args@.len(), 11),
{
    let a = match argument::<A>(args, 0, "A") {
        Ok(value) => value,
        Err(error) => {
            return Err(error);
        },
    };
    let b = match argument::<B>(args, 1, "B") {
        Ok(value) => value,
        Err(error) => {
            return Err(error);
        },
    };
    let c = match argument::<C>(args, 2, "C") {
        Ok(value) => value,
        Err(error) => {
            return Err(error);
        },
    };
    let d = match argument::<D>(args, 3, "D") {
        Ok(value) => value,
        Err(error) => {
            return Err(error);
        },
    };
    let e = match argument::<E>(args, 4, "E") {
        Ok(value) => value,
        Err(error) => {
            return Err(error);
        },
    };
    let f = match argument::<F>(args, 5, "F") {
        Ok(value) => value,
        Err(error) => {
            return Err(error);
        },
    };
    let g = match argument::<G>(args, 6, "G") {
        Ok(value) => value,
        Err(error) => {
            return Err(error);
        },
    };
    let h = match argument::<H>(args, 7, "H") {
        Ok(value) => value,
        Err(error) => {
            return Err(error);
        },
    };
    let i = match argument::<I>(args, 8, "I") {
        Ok(value) => value,
        Err(error) => {
            return Err(error);
        },
    };
    let j = match argument::<J>(args, 9, "J") {
        Ok(value) => value,
        Err(error) => {
            return Err(error);
        },
    };
    let k = match argument::<K>(args, 10, "K") {
        Ok(value) => value,
        Err(error) => {
            return Err(error);
        },
    };
    Ok((a, b, c, d, e, f, g, h, i, j, k))
}

/// The first 12 arguments as a tuple of 12 elements.
pub fn from_args_12<A: FromStr, B: FromStr, C: FromStr, D: FromStr, E: FromStr, F: FromStr, G: FromStr, H: FromStr, I: FromStr, J: FromStr, K: FromStr, L: FromStr>(args: &[String]) -> (result: FromArgsResult<(A, B, C, D, E, F, G, H, I, J, K, L)>)
    ensures
        result is Ok ==> args@.len() >= 12,
        result matches Err(error) ==> tuple_failure(error@, args@.len(), 12),
{
    let a = match argument::<A>(args, 0, "A") {
        Ok(value) => value,
        Err(error) => {
            return Err(error);
        },
    };
    let b = match argument::<B>(args, 1, "B") {
        Ok(value) => value,
        Err(error) => {
            return Err(error);
        },
    };
    let c = match argument::<C>(args, 2, "C") {
        Ok(value) => value,
        Err(error) => {
            return Err(error);
        },
    };
    let d = match argument::<D>(args, 3, "D") {
        Ok(value) => value,
        Err(error) => {
            return Err(error);
        },
    };
    let e = match argument::<E>(args, 4, "E") {
        Ok(value) => value,
        Err(error) => {
            return Err(error);
        },
    };
    let f = match argument::<F>(args, 5, "F") {
        Ok(value) => value,
        Err(error) => {
            return Err(error);
        },
    };
    let g = match argument::<G>(args, 6, "G") {
        Ok(value) => value,
        Err(error) => {
            return Err(error);
        },
    };
    let h = match argument::<H>(args, 7, "H") {
        Ok(value) => value,
        Err(error) => {
            return Err(error);
        },
    };
    let i = match argument::<I>(args, 8, "I") {
        Ok(value) => value,
        Err(error) => {
            return Err(error);
        },
    };
    let j = match argument::<J>(args, 9, "J") {
        Ok(value) => value,
        Err(error) => {
            return Err(error);
        },
    };
    let k = match argument::<K>(args, 10, "K") {
        Ok(value) => value,
        Err(error) => {
            return Err(error);
        },
    };
    let l = match argument::<L>(args, 11, "L") {
        Ok(value) => value,
        Err(error) => {
            return Err(error);
        },
    };
    Ok((a, b, c, d, e, f, g, h, i, j, k, l))
}

/// The first 13 arguments as a tuple of 13 elements.
pub fn from_args_13<A: FromStr, B: FromStr, C: FromStr, D: FromStr, E: FromStr, F: FromStr, G: FromStr, H: FromStr, I: FromStr, J: FromStr, K: FromStr, L: FromStr, M: FromStr>(args: &[String]) -> (result: FromArgsResult<(A, B, C, D, E, F, G, H, I, J, K, L, M)>)
    ensures
        result is Ok ==> args@.len() >= 13,
        result matches Err(error) ==> tuple_failure(error@, args@.len(), 13),
{
    let a = match argument::<A>(args, 0, "A") {
        Ok(value) => value,
        Err(error) => {
            return Err(error);
        },
    };
    let b = match argument::<B>(args, 1, "B") {
        Ok(value) => value,
        Err(error) => {
            return Err(error);
        },
    };
    let c = match argument::<C>(args, 2, "C") {
        Ok(value) => value,
        Err(error) => {
            return Err(error);
        },
    };
    let d = match argument::<D>(args, 3, "D") {
        Ok(value) => value,
        Err(error) => {
            return Err(error);
        },
    };
    let e = match argument::<E>(args, 4, "E") {
        Ok(value) => value,
        Err(error) => {
            return Err(error);
        },
    };
    let f = match argument::<F>(args, 5, "F") {
        Ok(value) => value,
        Err(error) => {
            return Err(error);
        },
    };
    let g = match argument::<G>(args, 6, "G") {
        Ok(value) => value,
        Err(error) => {
            return Err(error);
        },
    };
    let h = match argument::<H>(args, 7, "H") {
        Ok(value) => value,
        Err(error) => {
            return Err(error);
        },
    };
    let i = match argument::<I>(args, 8, "I") {
        Ok(value) => value,
        Err(error) => {
            return Err(error);
        },
    };
    let j = match argument::<J>(args, 9, "J") {
        Ok(value) => value,
        Err(error) => {
            return Err(error);
        },
    };
    let k = match argument::<K>(args, 10, "K") {
        Ok(value) => value,
        Err(error) => {
            return Err(error);
        },
    };
    let l = match argument::<L>(args, 11, "L") {
        Ok(value) => value,
        Err(error) => {
            return Err(error);
        },
    };
    let m = match argument::<M>(args, 12, "M") {
        Ok(value) => value,
        Err(error) => {
            return Err(error);
        },
    };
    Ok((a, b, c, d, e, f, g, h, i, j, k, l, m))
}

/// The first 14 arguments as a tuple of 14 elements.
pub fn from_args_14<A: FromStr, B: FromStr, C: FromStr, D: FromStr, E: FromStr, F: FromStr, G: FromStr, H: FromStr, I: FromStr, J: FromStr, K: FromStr, L: FromStr, M: FromStr, N: FromStr>(args: &[String]) -> (result: FromArgsResult<(A, B, C, D, E, F, G, H, I, J, K, L, M, N)>)
    ensures
        result is Ok ==> args@.len() >= 14,
        result matches Err(error) ==> tuple_failure(error@, args@.len(), 14),
{
    let a = match argument::<A>(args, 0, "A") {
        Ok(value) => value,
        Err(error) => {
            return Err(error);
        },
    };
    let b = match argument::<B>(args, 1, "B") {
        Ok(value) => value,
        Err(error) => {
            return Err(error);
        },
    };
    let c = match argument::<C>(args, 2, "C") {
        Ok(value) => value,
        Err(error) => {
            return Err(error);
        },
    };
    let d = match argument::<D>(args, 3, "D") {
        Ok(value) => value,
        Err(error) => {
            return Err(error);
        },
    };
    let e = match argument::<E>(args, 4, "E") {
        Ok(value) => value,
        Err(error) => {
            return Err(error);
        },
    };
    let f = match argument::<F>(args, 5, "F") {
        Ok(value) => value,
        Err(error) => {
            return Err(error);
        },
    };
    let g = match argument::<G>(args, 6, "G") {
        Ok(value) => value,
        Err(error) => {
            return Err(error);
        },
    };
    let h = match argument::<H>(args, 7, "H") {
        Ok(value) => value,
        Err(error) => {
            return Err(error);
        },
    };
    let i = match argument::<I>(args, 8, "I") {
        Ok(value) => value,
        Err(error) => {
            return Err(error);
        },
    };
    let j = match argument::<J>(args, 9, "J") {
        Ok(value) => value,
        Err(error) => {
            return Err(error);
        },
    };
    let k = match argument::<K>(args, 10, "K") {
        Ok(value) => value,
        Err(error) => {
            return Err(error);
        },
    };
    let l = match argument::<L>(args, 11, "L") {
        Ok(value) => value,
        Err(error) => {
            return Err(error);
        },
    };
    let m = match argument::<M>(args, 12, "M") {
        Ok(value) => value,
        Err(error) => {
            return Err(error);
        },
    };
    let n = match argument::<N>(args, 13, "N") {
        Ok(value) => value,
        Err(error) => {
            return Err(error);
        },
    };
    Ok((a, b, c, d, e, f, g, h, i, j, k, l, m, n))
}

/// The first 15 arguments as a tuple of 15 elements.
pub fn from_args_15<A: FromStr, B: FromStr, C: FromStr, D: FromStr, E: FromStr, F: FromStr, G: FromStr, H: FromStr, I: FromStr, J: FromStr, K: FromStr, L: FromStr, M: FromStr, N: FromStr, O: FromStr>(args: &[String]) -> (result: FromArgsResult<(A, B, C, D, E, F, G, H, I, J, K, L, M, N, O)>)
    ensures
        result is Ok ==> args@.len() >= 15,
        result matches Err(error) ==> tuple_failure(error@, args@.len(), 15),
{
    let a = match argument::<A>(args, 0, "A") {
        Ok(value) => value,
        Err(error) => {
            return Err(error);
        },
    };
    let b = match argument::<B>(args, 1, "B") {
        Ok(value) => value,
        Err(error) => {
            return Err(error);
        },
    };
    let c = match argument::<C>(args, 2, "C") {
        Ok(value) => value,
        Err(error) => {
            return Err(error);
        },
    };
    let d = match argument::<D>(args, 3, "D") {
        Ok(value) => value,
        Err(error) => {
            return Err(error);
        },
    };
    let e = match argument::<E>(args, 4, "E") {
        Ok(value) => value,
        Err(error) => {
            return Err(error);
        },
    };
    let f = match argument::<F>(args, 5, "F") {
        Ok(value) => value,
        Err(error) => {
            return Err(error);
        },
    };
    let g = match argument::<G>(args, 6, "G") {
        Ok(value) => value,
        Err(error) => {
            return Err(error);
        },
    };
    let h = match argument::<H>(args, 7, "H") {
        Ok(value) => value,
        Err(error) => {
            return Err(error);
        },
    };
    let i = match argument::<I>(args, 8, "I") {
        Ok(value) => value,
        Err(error) => {
            return Err(error);
        },
    };
    let j = match argument::<J>(args, 9, "J") {
        Ok(value) => value,
        Err(error) => {
            return Err(error);
        },
    };
    let k = match argument::<K>(args, 10, "K") {
        Ok(value) => value,
        Err(error) => {
            return Err(error);
        },
    };
    let l = match argument::<L>(args, 11, "L") {
        Ok(value) => value,
        Err(error) => {
            return Err(error);
        },
    };
    let m = match argument::<M>(args, 12, "M") {
        Ok(value) => value,
        Err(error) => {
            return Err(error);
        },
    };
    let n = match argument::<N>(args, 13, "N") {
        Ok(value) => value,
        Err(error) => {
            return Err(error);
        },
    };
    let o = match argument::<O>(args, 14, "O") {
        Ok(value) => value,
        Err(error) => {
            return Err(error);
        },
    };
    Ok((a, b, c, d, e, f, g, h, i, j, k, l, m, n, o))
}

/// The first 16 arguments as a tuple of 16 elements.
pub fn from_args_16<A: FromStr, B: FromStr, C: FromStr, D: FromStr, E: FromStr, F: FromStr, G: FromStr, H: FromStr, I: FromStr, J: FromStr, K: FromStr, L: FromStr, M: FromStr, N: FromStr, O: FromStr, P: FromStr>(args: &[String]) -> (result: FromArgsResult<(A, B, C, D, E, F, G, H, I, J, K, L, M, N, O, P)>)
    ensures
        result is Ok ==> args@.len() >= 16,
        result matches Err(error) ==> tuple_failure(error@, args@.len(), 16),
{
    let a = match argument::<A>(args, 0, "A") {
        Ok(value) => value,
        Err(error) => {
            return Err(error);
        },
    };
    let b = match argument::<B>(args, 1, "B") {
        Ok(value) => value,
        Err(error) => {
            return Err(error);
        },
    };
    let c = match argument::<C>(args, 2, "C") {
        Ok(value) => value,
        Err(error) => {
            return Err(error);
        },
    };
    let d = match argument::<D>(args, 3, "D") {
        Ok(value) => value,
        Err(error) => {
            return Err(error);
        },
    };
    let e = match argument::<E>(args, 4, "E") {
        Ok(value) => value,
        Err(error) => {
            return Err(error);
        },
    };
    let f = match argument::<F>(args, 5, "F") {
        Ok(value) => value,
        Err(error) => {
            return Err(error);
        },
    };
    let g = match argument::<G>(args, 6, "G") {
        Ok(value) => value,
        Err(error) => {
            return Err(error);
        },
    };
    let h = match argument::<H>(args, 7, "H") {
        Ok(value) => value,
        Err(error) => {
            return Err(error);
        },
    };
    let i = match argument::<I>(args, 8, "I") {
        Ok(value) => value,
        Err(error) => {
            return Err(error);
        },
    };
    let j = match argument::<J>(args, 9, "J") {
        Ok(value) => value,
        Err(error) => {
            return Err(error);
        },
    };
    let k = match argument::<K>(args, 10, "K") {
        Ok(value) => value,
        Err(error) => {
            return Err(error);
        },
    };
    let l = match argument::<L>(args, 11, "L") {
        Ok(value) => value,
        Err(error) => {
            return Err(error);
        },
    };
    let m = match argument::<M>(args, 12, "M") {
        Ok(value) => value,
        Err(error) => {
            return Err(error);
        },
    };
    let n = match argument::<N>(args, 13, "N") {
        Ok(value) => value,
        Err(error) => {
            return Err(error);
        },
    };
    let o = match argument::<O>(args, 14, "O") {
        Ok(value) => value,
        Err(error) => {
            return Err(error);
        },
    };
    let p = match argument::<P>(args, 15, "P") {
        Ok(value) => value,
        Err(error) => {
            return Err(error);
        },
    };
    Ok((a, b, c, d, e, f, g, h, i, j, k, l, m, n, o, p))
}

} // verus!
