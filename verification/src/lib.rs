//! A compile-time source transformation: given the token text of a function
//! definition, emit a replacement definition with the same name, generic
//! parameters and parameter list whose body returns the original definition's
//! canonical source text as a `&'static str` literal. The executable body of
//! the input is captured as text and otherwise discarded; text that does not
//! parse as a function definition is rejected with a diagnostic.

pub mod parse;
pub mod rewrite;

pub use parse::FnDef;
pub use parse::FnModel;
pub use parse::FnParse;
pub use parse::ParseError;
pub use rewrite::function_ai;
pub use rewrite::rewrite_function;
