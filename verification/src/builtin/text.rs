//! Functions on text: `toLower`, `toUpper` and `trim`.

use vstd::prelude::*;
use vstd::string::*;

use crate::render::texts;
use crate::template::function::{FuncResult, FunctionErrorView};
use crate::template::validations::args_min_len;

verus! {

/// The lower case of a text, as `str::to_lowercase` of std gives it.
pub uninterp spec fn lowercase_of(text: Seq<char>) -> Seq<char>;

/// The upper case of a text, as `str::to_uppercase` of std gives it.
pub uninterp spec fn uppercase_of(text: Seq<char>) -> Seq<char>;

/// Whether a character is whitespace, as `char::is_whitespace` of std says:
/// whether it has the Unicode property `White_Space`.
pub uninterp spec fn unicode_whitespace(c: char) -> bool;

/// The number of whitespace characters that `text` starts with.
pub open spec fn leading_whitespace(text: Seq<char>) -> nat
    decreases text.len(),
{
    if text.len() > 0 && unicode_whitespace(text[0]) {
        1 + leading_whitespace(text.drop_first())
    } else {
        0
    }
}

/// The number of whitespace characters that `text` ends with.
pub open spec fn trailing_whitespace(text: Seq<char>) -> nat
    decreases text.len(),
{
    if text.len() > 0 && unicode_whitespace(text.last()) {
        1 + trailing_whitespace(text.drop_last())
    } else {
        0
    }
}

/// `text` without the whitespace at its start and at its end.
pub open spec fn trimmed_of(text: Seq<char>) -> Seq<char> {
    if leading_whitespace(text) == text.len() {
        Seq::empty()
    } else {
        text.subrange(leading_whitespace(text) as int, text.len() - trailing_whitespace(text))
    }
}

/// What a function on text does to each of its arguments.
pub enum Change {
    Lower,
    Upper,
    Trim,
}

/// `text` after `change`.
pub open spec fn changed(change: Change, text: Seq<char>) -> Seq<char> {
    match change {
        Change::Lower => lowercase_of(text),
        Change::Upper => uppercase_of(text),
        Change::Trim => trimmed_of(text),
    }
}

/// Each of `parts` after `change`, in order.
pub open spec fn all_changed(change: Change, parts: Seq<Seq<char>>) -> Seq<Seq<char>> {
    Seq::new(parts.len(), |i: int| changed(change, parts[i]))
}

/// `parts` one after the other, with `separator` between each two.
pub open spec fn joined(parts: Seq<Seq<char>>, separator: Seq<char>) -> Seq<char>
    decreases parts.len(),
{
    if parts.len() == 0 {
        Seq::empty()
    } else if parts.len() == 1 {
        parts[0]
    } else {
        joined(parts.drop_last(), separator) + separator + parts.last()
    }
}

/// What a function on text returns: the arguments after `change`, joined by
/// single spaces. Without arguments it fails, with the number of arguments
/// given and the one that it asks for.
pub open spec fn text_function(change: Change, args: Seq<Seq<char>>) -> Result<
    Seq<char>,
    FunctionErrorView,
> {
    if args.len() == 0 {
        Err(FunctionErrorView::ArgumentsIncomplete(0, 1))
    } else {
        Ok(joined(all_changed(change, args), " "@))
    }
}

/// The view of the result of a function.
pub open spec fn func_result_view(result: FuncResult) -> Result<Seq<char>, FunctionErrorView> {
    match result {
        Ok(text) => Ok(text@),
        Err(error) => Err(error@),
    }
}

/// The lower case of `text`, from `str::to_lowercase` of std.
#[verifier::external_body]
pub(crate) fn lowercase(text: &str) -> (lower: String)
    ensures
        lower@ == lowercase_of(text@),
{
    text.to_lowercase()
}

/// The upper case of `text`, from `str::to_uppercase` of std.
#[verifier::external_body]
pub(crate) fn uppercase(text: &str) -> (upper: String)
    ensures
        upper@ == uppercase_of(text@),
{
    text.to_uppercase()
}

/// `text` without the whitespace round it, from `str::trim` of std, which
/// takes away the characters at both ends that have the Unicode property
/// `White_Space`.
#[verifier::external_body]
fn trim_text<'a>(text: &'a str) -> (trimmed: &'a str)
    ensures
        trimmed@ == trimmed_of(text@),
        trimmed@.len() > 0 ==> !unicode_whitespace(trimmed@[0]) && !unicode_whitespace(
            trimmed@.last(),
        ),
{
    text.trim()
}

/// `text` after `change`.
fn change_text(change: &Change, text: &str) -> (result: String)
    ensures
        result@ == changed(*change, text@),
{
    match change {
        Change::Lower => lowercase(text),
        Change::Upper => uppercase(text),
        Change::Trim => trim_text(text).to_owned(),
    }
}

/// The arguments after `change`, joined by single spaces.
fn join_changed(change: &Change, args: &[String]) -> (text: String)
    ensures
        text@ == joined(all_changed(*change, texts(args@)), " "@),
{
    let ghost parts = all_changed(*change, texts(args@));
    let mut text = String::new();
    let mut index: usize = 0;
    proof {
        assert(parts.take(0) =~= Seq::<Seq<char>>::empty());
    }
    while index < args.len()
        invariant
            index <= args@.len(),
            parts == all_changed(*change, texts(args@)),
            text@ == joined(parts.take(index as int), " "@),
        decreases args@.len() - index,
    {
        let piece = change_text(change, args[index].as_str());
        proof {
            assert(parts.take(index + 1).drop_last() =~= parts.take(index as int));
            assert(parts.take(index + 1).last() == piece@);
            if index > 0 {
                assert(parts.take(index as int).len() > 0);
            } else {
                assert(Seq::<char>::empty() + piece@ =~= piece@);
            }
        }
        if index > 0 {
            text.append(" ");
        }
        text.append(piece.as_str());
        index = index + 1;
    }
    proof {
        assert(parts.take(index as int) =~= parts);
    }
    text
}

/// The result of a function on text.
fn apply(change: Change, args: &[String]) -> (result: FuncResult)
    ensures
        func_result_view(result) == text_function(change, texts(args@)),
{
    match args_min_len(args, 1) {
        Ok(()) => Ok(join_changed(&change, args)),
        Err(error) => Err(error),
    }
}

/// The arguments in lower case, joined by single spaces. At least one
/// argument is asked for.
pub fn to_lower(args: &[String]) -> (result: FuncResult)
    ensures
        func_result_view(result) == text_function(Change::Lower, texts(args@)),
{
    apply(Change::Lower, args)
}

/// The arguments in upper case, joined by single spaces. At least one
/// argument is asked for.
pub fn to_upper(args: &[String]) -> (result: FuncResult)
    ensures
        func_result_view(result) == text_function(Change::Upper, texts(args@)),
{
    apply(Change::Upper, args)
}

/// The arguments without the whitespace round each, joined by single
/// spaces. At least one argument is asked for.
pub fn trim(args: &[String]) -> (result: FuncResult)
    ensures
        func_result_view(result) == text_function(Change::Trim, texts(args@)),
{
    apply(Change::Trim, args)
}

} // verus!
