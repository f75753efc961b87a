//! Typed access to the arguments of a template function.

pub mod arg;
pub mod serialize;
pub mod text_case;
