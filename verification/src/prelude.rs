//! The items that most users of the library need.

pub use crate::builtin::to_typed_args;
pub use crate::error::Error;
pub use crate::helper::serialize::{FromArgs, FromArgsError, FromArgsResult};
pub use crate::template::function::{FuncResult, FunctionError};
pub use crate::template::registry::Function;
pub use crate::template::validations;
pub use crate::template::SrTemplate;
