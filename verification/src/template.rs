//! The rendering context: the delimiters of a template and the registry of
//! variables and functions that templates are rendered against.

use std::sync::Arc;

use vstd::prelude::*;
use vstd::string::*;
use vstd::utf8::*;

use crate::builtin::math::{
    add_u8,
    add_u16,
    add_u32,
    add_u64,
    add_u128,
    add_i8,
    add_i16,
    add_i32,
    add_i64,
    add_i128,
    sub_u8,
    sub_u16,
    sub_u32,
    sub_u64,
    sub_u128,
    sub_i8,
    sub_i16,
    sub_i32,
    sub_i64,
    sub_i128,
    mul_u8,
    mul_u16,
    mul_u32,
    mul_u64,
    mul_u128,
    mul_i8,
    mul_i16,
    mul_i32,
    mul_i64,
    mul_i128,
    div_u8,
    div_u16,
    div_u32,
    div_u64,
    div_u128,
    div_i8,
    div_i16,
    div_i32,
    div_i64,
    div_i128,
};
use crate::builtin::text::{to_lower, to_upper, trim};
use crate::error::{Error, ErrorView};
use crate::parser::grammar::{template, NodeView};
use crate::parser::{node_views, parser};
use crate::render::{
    evaluate,
    lemma_rendered_prefix,
    rendered,
    text_result_view,
    Answers,
};
use crate::template::function::FuncResult;
use crate::template::registry::{
    discard,
    discard_all,
    empty_map,
    holds,
    share,
    store,
    store_function,
    Functions,
    Variables,
};

pub mod function;
pub mod registry;
pub mod validations;

verus! {

/// A rendering context. It holds the pair of delimiters that mark an
/// expression in a template, and a handle on the variables and functions that
/// expressions are evaluated with. A clone is another handle on the same
/// variables and functions.
pub struct SrTemplate {
    delimiter_start: String,
    delimiter_close: String,
    variables: Arc<Variables>,
    functions: Arc<Functions>,
}

/// The text of a value, from `ToString::to_string` of std. The impl is the
/// caller's, so nothing is known of the text.
#[verifier::external_body]
fn stringify<T: ToString>(value: &T) -> String {
    value.to_string()
}

/// The items of `items` from the last to the first.
fn reversed<T>(items: Vec<T>) -> (turned: Vec<T>)
    ensures
        turned@ == items@.reverse(),
{
    let mut items = items;
    let mut turned: Vec<T> = Vec::new();
    let ghost all = items@;
    while items.len() > 0
        invariant
            items@.len() + turned@.len() == all.len(),
            items@ == all.take(items@.len() as int),
            forall|i: int| 0 <= i < turned@.len() ==> turned@[i] == all[all.len() - 1 - i],
        decreases items.len(),
    {
        if let Some(item) = items.pop() {
            turned.push(item);
        }
    }
    assert(turned@ =~= all.reverse());
    turned
}

impl SrTemplate {
    /// Both delimiters hold at least one character.
    #[verifier::type_invariant]
    spec fn well_formed(&self) -> bool {
        self.delimiter_start@.len() > 0 && self.delimiter_close@.len() > 0
    }

    /// The delimiter that opens an expression.
    pub closed spec fn open_delimiter(&self) -> Seq<char> {
        self.delimiter_start@
    }

    /// The delimiter that closes an expression.
    pub closed spec fn close_delimiter(&self) -> Seq<char> {
        self.delimiter_close@
    }

    /// Whether the two contexts are handles on the same variables and
    /// functions.
    pub closed spec fn shares_registry(&self, other: &SrTemplate) -> bool {
        self.variables == other.variables && self.functions == other.functions
    }

    /// What rendering `text` in this context may return. A template that
    /// does not parse gives its syntax error. One that parses gives what its
    /// nodes render to under the answers of the registry.
    pub open spec fn renders(&self, text: Seq<char>, result: Result<Seq<char>, ErrorView>) -> bool {
        match template(
            encode_utf8(text),
            encode_utf8(self.open_delimiter()),
            encode_utf8(self.close_delimiter()),
            0,
        ) {
            Ok(nodes) => exists|answers: Seq<Answers>| result == #[trigger] rendered(nodes, answers),
            Err(error) => result == Err::<Seq<char>, ErrorView>(ErrorView::BadSyntax(error)),
        }
    }

    /// A context with the delimiters `start` and `close`, without variables
    /// and with the built-in functions: those on text, `toLower`, `toUpper`
    /// and `trim`, and those on integers, from `add_u8` to `div_i128`.
    pub fn with_delimiter(start: &str, close: &str) -> (context: Self)
        requires
            start@.len() > 0,
            close@.len() > 0,
        ensures
            context.open_delimiter() == start@,
            context.close_delimiter() == close@,
    {
        let context = SrTemplate {
            delimiter_start: start.to_owned(),
            delimiter_close: close.to_owned(),
            variables: Arc::new(empty_map()),
            functions: Arc::new(empty_map()),
        };
        context.add_function("toLower", to_lower);
        context.add_function("toUpper", to_upper);
        context.add_function("trim", trim);
        context.add_function("add_u8", add_u8);
        context.add_function("add_u16", add_u16);
        context.add_function("add_u32", add_u32);
        context.add_function("add_u64", add_u64);
        context.add_function("add_u128", add_u128);
        context.add_function("add_i8", add_i8);
        context.add_function("add_i16", add_i16);
        context.add_function("add_i32", add_i32);
        context.add_function("add_i64", add_i64);
        context.add_function("add_i128", add_i128);
        context.add_function("sub_u8", sub_u8);
        context.add_function("sub_u16", sub_u16);
        context.add_function("sub_u32", sub_u32);
        context.add_function("sub_u64", sub_u64);
        context.add_function("sub_u128", sub_u128);
        context.add_function("sub_i8", sub_i8);
        context.add_function("sub_i16", sub_i16);
        context.add_function("sub_i32", sub_i32);
        context.add_function("sub_i64", sub_i64);
        context.add_function("sub_i128", sub_i128);
        context.add_function("mul_u8", mul_u8);
        context.add_function("mul_u16", mul_u16);
        context.add_function("mul_u32", mul_u32);
        context.add_function("mul_u64", mul_u64);
        context.add_function("mul_u128", mul_u128);
        context.add_function("mul_i8", mul_i8);
        context.add_function("mul_i16", mul_i16);
        context.add_function("mul_i32", mul_i32);
        context.add_function("mul_i64", mul_i64);
        context.add_function("mul_i128", mul_i128);
        context.add_function("div_u8", div_u8);
        context.add_function("div_u16", div_u16);
        context.add_function("div_u32", div_u32);
        context.add_function("div_u64", div_u64);
        context.add_function("div_u128", div_u128);
        context.add_function("div_i8", div_i8);
        context.add_function("div_i16", div_i16);
        context.add_function("div_i32", div_i32);
        context.add_function("div_i64", div_i64);
        context.add_function("div_i128", div_i128);
        context
    }

    /// Binds the variable `name` to the text of `value`. The text is taken
    /// now and stored; an earlier binding of the name is replaced.
    pub fn add_variable<T: ToString>(&self, name: &str, value: T) {
        let text = stringify(&value);
        store(&self.variables, name.to_owned(), text);
    }

    /// Binds each name of `values` to the text beside it, in order: of two
    /// bindings of one name the later one stays.
    pub fn add_variables(&self, values: Vec<(String, String)>) {
        let mut rest = reversed(values);
        while rest.len() > 0
            decreases rest.len(),
        {
            if let Some((name, text)) = rest.pop() {
                store(&self.variables, name, text);
            }
        }
    }

    /// Binds the function `name` to `func`; an earlier binding of the name
    /// is replaced.
    pub fn add_function<F: Fn(&[String]) -> FuncResult + Send + Sync + 'static>(
        &self,
        name: &str,
        func: F,
    ) {
        store_function(&self.functions, name.to_owned(), func);
    }

    /// Binds each name of `values` to the function beside it, in order: of
    /// two bindings of one name the later one stays.
    pub fn add_functions<F: Fn(&[String]) -> FuncResult + Send + Sync + 'static>(
        &self,
        values: Vec<(String, F)>,
    ) {
        let mut rest = reversed(values);
        while rest.len() > 0
            decreases rest.len(),
        {
            if let Some((name, func)) = rest.pop() {
                store_function(&self.functions, name, func);
            }
        }
    }

    /// Whether a variable is bound to `name` at the time of the call.
    pub fn contains_variable(&self, name: &str) -> bool {
        holds(&self.variables, name)
    }

    /// Whether a function is bound to `name` at the time of the call.
    pub fn contains_function(&self, name: &str) -> bool {
        holds(&self.functions, name)
    }

    /// Removes the variable `name`, if it is bound.
    pub fn remove_variable(&self, name: &str) {
        discard(&self.variables, name);
    }

    /// Removes the function `name`, if it is bound.
    pub fn remove_function(&self, name: &str) {
        discard(&self.functions, name);
    }

    /// Removes all variables.
    pub fn clear_variables(&self) {
        discard_all(&self.variables);
    }

    /// Removes all functions.
    pub fn clear_functions(&self) {
        discard_all(&self.functions);
    }

    /// Sets the delimiters for the renders to come. The variables and
    /// functions stay.
    pub fn set_delimiter(&mut self, start: &str, close: &str)
        requires
            start@.len() > 0,
            close@.len() > 0,
        ensures
            final(self).open_delimiter() == start@,
            final(self).close_delimiter() == close@,
            final(self).shares_registry(old(self)),
    {
        proof {
            use_type_invariant(&*self);
        }
        self.delimiter_start = start.to_owned();
        self.delimiter_close = close.to_owned();
    }

    /// Renders the template `text`: parses it with the delimiters of this
    /// context and puts the text of each node in its place. Nothing is
    /// evaluated where the template does not parse, and the first error ends
    /// the render.
    pub fn render(&self, text: &str) -> (result: Result<String, Error>)
        ensures
            self.renders(text@, text_result_view(result)),
    {
        proof {
            use_type_invariant(self);
        }
        let tnodes = match parser(
            text,
            self.delimiter_start.as_str(),
            self.delimiter_close.as_str(),
        ) {
            Ok(tnodes) => tnodes,
            Err(error) => {
                return Err(error);
            },
        };
        let ghost views = node_views(tnodes@);
        let ghost parsed = template(
            encode_utf8(text@),
            encode_utf8(self.open_delimiter()),
            encode_utf8(self.close_delimiter()),
            0,
        );
        assert(parsed == Ok::<Seq<NodeView>, crate::parser::error::SyntaxErrorView>(views));
        let mut res = String::new();
        let ghost mut answers: Seq<Answers> = Seq::empty();
        let mut index: usize = 0;
        proof {
            assert(views.take(0) =~= Seq::<NodeView>::empty());
        }
        while index < tnodes.len()
            invariant
                index <= tnodes.len(),
                answers.len() == index,
                views == node_views(tnodes@),
                parsed == template(
                    encode_utf8(text@),
                    encode_utf8(self.open_delimiter()),
                    encode_utf8(self.close_delimiter()),
                    0,
                ),
                parsed == Ok::<Seq<NodeView>, crate::parser::error::SyntaxErrorView>(views),
                rendered(views.take(index as int), answers) == Ok::<Seq<char>, ErrorView>(res@),
            decreases tnodes.len() - index,
        {
            let (value, Ghost(answer)) = evaluate(&tnodes[index], &self.variables, &self.functions);
            let ghost before = answers;
            proof {
                answers = answers.push(answer);
                lemma_rendered_prefix(views.take(index as int), before, answers);
                assert(views.take(index + 1).drop_last() =~= views.take(index as int));
                assert(views.take(index + 1).last() == tnodes@[index as int]@);
            }
            match value {
                Ok(piece) => {
                    res.append(piece.as_str());
                },
                Err(error) => {
                    proof {
                        lemma_render_fails(views, answers, index as int + 1);
                        assert(text_result_view(Err(error)) == rendered(views, answers));
                    }
                    return Err(error);
                },
            }
            index = index + 1;
        }
        proof {
            assert(views.take(index as int) =~= views);
            assert(text_result_view(Ok(res)) == rendered(views, answers));
        }
        Ok(res)
    }
}

/// Where the nodes before index `len` end in an error, all the nodes end in
/// that error.
pub proof fn lemma_render_fails(nodes: Seq<NodeView>, answers: Seq<Answers>, len: int)
    requires
        0 <= len <= nodes.len(),
        rendered(nodes.take(len), answers) is Err,
    ensures
        rendered(nodes, answers) == rendered(nodes.take(len), answers),
    decreases nodes.len() - len,
{
    if len < nodes.len() {
        assert(nodes.take(len + 1).drop_last() =~= nodes.take(len));
        lemma_render_fails(nodes, answers, len + 1);
    } else {
        assert(nodes.take(len) =~= nodes);
    }
}

impl Default for SrTemplate {
    /// A context with the delimiters `{{` and `}}`, without variables and
    /// with the built-in functions.
    fn default() -> (context: Self)
        ensures
            context.open_delimiter() == "{{"@,
            context.close_delimiter() == "}}"@,
    {
        proof {
            reveal_strlit("{{");
            reveal_strlit("}}");
        }
        SrTemplate::with_delimiter("{{", "}}")
    }
}

impl Clone for SrTemplate {
    /// Another handle on the same variables and functions, with the same
    /// delimiters.
    fn clone(&self) -> (copy: Self)
        ensures
            copy.open_delimiter() == self.open_delimiter(),
            copy.close_delimiter() == self.close_delimiter(),
            copy.shares_registry(self),
    {
        proof {
            use_type_invariant(self);
        }
        SrTemplate {
            delimiter_start: self.delimiter_start.clone(),
            delimiter_close: self.delimiter_close.clone(),
            variables: share(&self.variables),
            functions: share(&self.functions),
        }
    }
}

} // verus!
