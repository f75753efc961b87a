//! A small templating engine: text with delimited expressions is parsed into
//! nodes and rendered against a shared registry of variables and functions.
//!
//! ```text
//! Hello {{ name }}, you are {{ toUpper(trim(mood)) }}
//! ```
//!
//! Text outside the delimiters is kept as it is. Between the delimiters
//! stands a variable or a call of a function; the arguments of a call are
//! variables, calls, string literals in double quotes and number literals.
//!
//! - [`parser`] turns a template into nodes; [`parser::grammar`] states
//!   which nodes a template has, and the parser is proved to return them.
//! - [`render`] turns nodes into text; what a node renders to is stated for
//!   every answer that the registry can give.
//! - [`template`] holds the context: the delimiters and the registry.
//! - [`builtin`] holds the functions that a context knows from the start.
//! - [`laws`] holds what follows for every template.

use vstd::prelude::*;

pub mod builtin;
pub mod decimal;
pub mod error;
pub mod helper;
pub mod laws;
pub mod parser;
pub mod prelude;
pub mod render;
pub mod template;

pub use error::Error;
pub use template::function;
pub use template::registry::Function;
pub use template::SrTemplate;

verus! {

/// A value that offers its parts as variables.
pub trait Variable {
    /// The names of the variables and the text of each.
    fn variables(&self) -> Vec<(String, String)>;
}

impl<T: Variable> Variable for &T {
    fn variables(&self) -> (variables: Vec<(String, String)>)
        ensures
            call_ensures(T::variables, (*self,), variables),
    {
        T::variables(self)
    }
}

} // verus!
