//! Rendering of parsed nodes against the registry.
//!
//! A node is evaluated from the inside out: the arguments of a call first,
//! from left to right, then the call itself. What the registry answers is
//! not in the hands of the renderer, since other handles may change the maps
//! at any time, between two lookups of one render too. The contracts
//! therefore say what is returned for each answer that the registry can
//! give: [`outcome`] is the result of a node, given the registry as it
//! answers at each node, and the rendering functions return the outcome for
//! the answers that they got.

use vstd::prelude::*;
use vstd::string::*;

use crate::error::{Error, ErrorView};
use crate::parser::grammar::NodeView;
use crate::parser::{lemma_function_view, node_views, TemplateNode};
use crate::template::function::{FuncResult, FunctionErrorView};
use crate::template::registry::{lookup, Function, Functions, Variables};

verus! {

/// The registry as it answers at one moment.
pub struct Registry {
    /// The value that a name is bound to, if any.
    pub variable: spec_fn(Seq<char>) -> Option<Seq<char>>,
    /// What the function of a name returns for the values of its arguments,
    /// or `None` where no function has the name.
    pub call: spec_fn(Seq<char>, Seq<Seq<char>>) -> Option<Result<Seq<char>, FunctionErrorView>>,
}

/// How the registry answers while one node is evaluated.
pub struct Answers {
    /// The registry at the moment at which the node itself is looked up: the
    /// variable, or the function once the arguments have their values.
    pub registry: Registry,
    /// For a call: the answers for its arguments, in order.
    pub arguments: Seq<Answers>,
}

/// The value of a variable, given what the lookup of `name` found.
pub open spec fn variable_outcome(name: Seq<char>, found: Option<Seq<char>>) -> Result<
    Seq<char>,
    ErrorView,
> {
    match found {
        Some(value) => Ok(value),
        None => Err(ErrorView::VariableNotFound(name)),
    }
}

/// The value of a call, given what the function under `name` returned.
pub open spec fn call_outcome(
    name: Seq<char>,
    called: Option<Result<Seq<char>, FunctionErrorView>>,
) -> Result<Seq<char>, ErrorView> {
    match called {
        Some(Ok(value)) => Ok(value),
        Some(Err(error)) => Err(ErrorView::Function(error)),
        None => Err(ErrorView::FunctionNotImplemented(name)),
    }
}

/// The text that `node` renders to, or the error that its evaluation ends
/// in, given the answers of the registry. Raw text and literals stand for
/// themselves, and a variable for what its name is bound to. The arguments
/// of a call come before the call: where one of them fails, the call fails
/// with that error, whatever the function is; else the function of the name
/// is called with the values of the arguments, in their order.
pub open spec fn outcome(node: NodeView, answers: Answers) -> Result<Seq<char>, ErrorView>
    decreases node,
{
    match node {
        NodeView::RawText(text) => Ok(text),
        NodeView::String(text) => Ok(text),
        NodeView::Number(text) => Ok(text),
        NodeView::Float(text) => Ok(text),
        NodeView::Variable(name) => variable_outcome(name, (answers.registry.variable)(name)),
        NodeView::Function(name, args) => match arguments_outcome(args, answers.arguments) {
            Ok(values) => call_outcome(name, (answers.registry.call)(name, values)),
            Err(error) => Err(error),
        },
    }
}

/// The values of `args`, in order, or the error of the first of them that
/// fails. The answers for argument `i` stand at index `i` of `answers`.
pub open spec fn arguments_outcome(args: Seq<NodeView>, answers: Seq<Answers>) -> Result<
    Seq<Seq<char>>,
    ErrorView,
>
    decreases args,
{
    if args.len() == 0 {
        Ok(Seq::empty())
    } else {
        match arguments_outcome(args.drop_last(), answers) {
            Ok(values) => match outcome(args.last(), answers[args.len() - 1]) {
                Ok(value) => Ok(values.push(value)),
                Err(error) => Err(error),
            },
            Err(error) => Err(error),
        }
    }
}

/// The text that `nodes` render to, one after the other, or the error of
/// the first of them that fails.
pub open spec fn rendered(nodes: Seq<NodeView>, answers: Seq<Answers>) -> Result<
    Seq<char>,
    ErrorView,
>
    decreases nodes.len(),
{
    if nodes.len() == 0 {
        Ok(Seq::empty())
    } else {
        match rendered(nodes.drop_last(), answers) {
            Ok(text) => match outcome(nodes.last(), answers[nodes.len() - 1]) {
                Ok(piece) => Ok(text + piece),
                Err(error) => Err(error),
            },
            Err(error) => Err(error),
        }
    }
}

/// The texts of `values`, in order.
pub open spec fn texts(values: Seq<String>) -> Seq<Seq<char>> {
    Seq::new(values.len(), |i: int| values[i]@)
}

/// The view of a rendered text or of the error in its place.
pub open spec fn text_result_view(result: Result<String, Error>) -> Result<Seq<char>, ErrorView> {
    match result {
        Ok(text) => Ok(text@),
        Err(error) => Err(error@),
    }
}

/// The view of what a function returned.
pub open spec fn call_view(called: Option<FuncResult>) -> Option<
    Result<Seq<char>, FunctionErrorView>,
> {
    match called {
        Some(Ok(text)) => Some(Ok(text@)),
        Some(Err(error)) => Some(Err(error@)),
        None => None,
    }
}

/// The view of what a lookup found.
pub open spec fn found_view(found: Option<String>) -> Option<Seq<char>> {
    match found {
        Some(text) => Some(text@),
        None => None,
    }
}

/// A registry that gives one answer to every lookup of a variable and one
/// to every call.
pub open spec fn answering(
    found: Option<Seq<char>>,
    called: Option<Result<Seq<char>, FunctionErrorView>>,
) -> Registry {
    Registry {
        variable: |name: Seq<char>| found,
        call: |name: Seq<char>, values: Seq<Seq<char>>| called,
    }
}

/// Answers that do not reach the arguments before index `len` do not change
/// what those arguments give.
pub proof fn lemma_arguments_outcome_prefix(
    args: Seq<NodeView>,
    answers: Seq<Answers>,
    more: Seq<Answers>,
)
    requires
        forall|i: int| 0 <= i < args.len() ==> answers[i] == more[i],
    ensures
        arguments_outcome(args, answers) == arguments_outcome(args, more),
    decreases args.len(),
{
    if args.len() > 0 {
        lemma_arguments_outcome_prefix(args.drop_last(), answers, more);
    }
}

/// Answers that do not reach the nodes before index `len` do not change what
/// those nodes render to.
pub proof fn lemma_rendered_prefix(nodes: Seq<NodeView>, answers: Seq<Answers>, more: Seq<Answers>)
    requires
        forall|i: int| 0 <= i < nodes.len() ==> answers[i] == more[i],
    ensures
        rendered(nodes, answers) == rendered(nodes, more),
    decreases nodes.len(),
{
    if nodes.len() > 0 {
        lemma_rendered_prefix(nodes.drop_last(), answers, more);
    }
}

/// The value of the variable `name`, given what its lookup found: the value
/// that was found, or the error that names the variable.
pub fn variable_value(name: &str, found: Option<String>) -> (result: Result<String, Error>)
    ensures
        text_result_view(result) == variable_outcome(name@, found_view(found)),
{
    match found {
        Some(value) => Ok(value),
        None => Err(Error::VariableNotFound(name.to_owned())),
    }
}

/// The value of a call of `name`, given what the function returned, or
/// `None` where no function has the name: the text of the function, its
/// error, or the error that names the function.
pub fn call_value(name: &str, called: Option<FuncResult>) -> (result: Result<String, Error>)
    ensures
        text_result_view(result) == call_outcome(name@, call_view(called)),
{
    match called {
        Some(Ok(value)) => Ok(value),
        Some(Err(error)) => Err(Error::Function(error)),
        None => Err(Error::FunctionNotImplemented(name.to_owned())),
    }
}

/// Evaluates `tnode`, and tells which answers the registry gave.
pub(crate) fn evaluate<'a>(tnode: &TemplateNode<'a>, vars: &Variables, funcs: &Functions) -> (evaluated:
    (Result<String, Error>, Ghost<Answers>))
    ensures
        text_result_view(evaluated.0) == outcome(tnode@, evaluated.1@),
    decreases tnode,
{
    let ghost unasked = Answers { registry: answering(None, None), arguments: Seq::empty() };
    match tnode {
        TemplateNode::RawText(text) => (Ok((*text).to_owned()), Ghost(unasked)),
        TemplateNode::String(text) => (Ok((*text).to_owned()), Ghost(unasked)),
        TemplateNode::Number(text) => (Ok((*text).to_owned()), Ghost(unasked)),
        TemplateNode::Float(text) => (Ok((*text).to_owned()), Ghost(unasked)),
        TemplateNode::Variable(name) => {
            let found = lookup(vars, *name);
            let ghost answers = Answers {
                registry: answering(found_view(found), None),
                arguments: Seq::empty(),
            };
            (variable_value(*name, found), Ghost(answers))
        },
        TemplateNode::Function(name, arguments) => {
            let ghost args = node_views(arguments@);
            let mut values: Vec<String> = Vec::new();
            let ghost mut answers: Seq<Answers> = Seq::empty();
            let mut index: usize = 0;
            proof {
                lemma_function_view(*name, *arguments);
                assert(args.take(0) =~= Seq::<NodeView>::empty());
                assert(texts(values@) =~= Seq::<Seq<char>>::empty());
            }
            while index < arguments.len()
                invariant
                    index <= arguments.len(),
                    answers.len() == index,
                    args == node_views(arguments@),
                    tnode@ == NodeView::Function(name@, args),
                    *tnode == TemplateNode::Function(*name, *arguments),
                    arguments_outcome(args.take(index as int), answers) == Ok::<
                        Seq<Seq<char>>,
                        ErrorView,
                    >(texts(values@)),
                decreases arguments.len() - index,
            {
                let (value, Ghost(answer)) = evaluate(&arguments[index], vars, funcs);
                let ghost before = answers;
                let ghost done = texts(values@);
                proof {
                    answers = answers.push(answer);
                    lemma_arguments_outcome_prefix(args.take(index as int), before, answers);
                    assert(args.take(index + 1).drop_last() =~= args.take(index as int));
                    assert(args.take(index + 1).last() == arguments@[index as int]@);
                }
                match value {
                    Ok(value) => {
                        values.push(value);
                        proof {
                            assert(texts(values@) =~= done.push(value@));
                        }
                    },
                    Err(error) => {
                        proof {
                            lemma_arguments_fail(args, answers, index as int + 1);
                        }
                        return (
                            Err(error),
                            Ghost(Answers { registry: answering(None, None), arguments: answers }),
                        );
                    },
                }
                index = index + 1;
            }
            proof {
                assert(args.take(index as int) =~= args);
            }
            let called = match lookup(funcs, *name) {
                Some(function) => Some(function.call(values.as_slice())),
                None => None,
            };
            let ghost answers = Answers {
                registry: answering(None, call_view(called)),
                arguments: answers,
            };
            (call_value(*name, called), Ghost(answers))
        },
    }
}

/// Where the arguments before index `len` end in an error, all the
/// arguments end in that error.
pub proof fn lemma_arguments_fail(args: Seq<NodeView>, answers: Seq<Answers>, len: int)
    requires
        0 <= len <= args.len(),
        arguments_outcome(args.take(len), answers) is Err,
    ensures
        arguments_outcome(args, answers) == arguments_outcome(args.take(len), answers),
    decreases args.len() - len,
{
    if len < args.len() {
        assert(args.take(len + 1).drop_last() =~= args.take(len));
        lemma_arguments_fail(args, answers, len + 1);
    } else {
        assert(args.take(len) =~= args);
    }
}

/// Whether `after` and `result` are what comes of appending `outcome` to
/// `before`: the text with the piece at its end, or the text as it was and
/// the error.
pub open spec fn appended(
    before: Seq<char>,
    after: Seq<char>,
    result: Result<(), Error>,
    outcome: Result<Seq<char>, ErrorView>,
) -> bool {
    match outcome {
        Ok(piece) => result is Ok && after == before + piece,
        Err(error) => result matches Err(e) && e@ == error && after == before,
    }
}

/// Renders `tnode` and appends its text to `res`. Raw text and literals are
/// appended as they are, a variable as its value in `vars`, a call as what
/// the function in `funcs` returns for the values of its arguments. After an
/// error `res` is as it was.
pub fn nodes<'a>(res: &mut String, tnode: TemplateNode<'a>, vars: &Variables, funcs: &Functions) -> (result:
    Result<(), Error>)
    ensures
        exists|answers: Answers|
            appended(old(res)@, final(res)@, result, #[trigger] outcome(tnode@, answers)),
{
    let (value, Ghost(answers)) = evaluate(&tnode, vars, funcs);
    match value {
        Ok(text) => {
            res.append(text.as_str());
            assert(appended(old(res)@, res@, Ok(()), outcome(tnode@, answers)));
            Ok(())
        },
        Err(error) => {
            assert(appended(old(res)@, res@, Err(error), outcome(tnode@, answers)));
            Err(error)
        },
    }
}

/// Renders `tnode` to a text of its own.
pub fn node<'a>(tnode: TemplateNode<'a>, vars: &Variables, funcs: &Functions) -> (result: Result<
    String,
    Error,
>)
    ensures
        exists|answers: Answers| text_result_view(result) == #[trigger] outcome(tnode@, answers),
{
    let (value, Ghost(answers)) = evaluate(&tnode, vars, funcs);
    assert(text_result_view(value) == outcome(tnode@, answers));
    value
}

} // verus!
