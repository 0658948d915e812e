//! Grammar registry, parser lifecycle and query compilation for a
//! tree-sitter binding, with every failure reported as a tagged error.

pub mod error;
mod native;
pub mod parser;
pub mod registry;
pub mod tree;

pub use error::{build_error, Error, ErrorKind};
pub use parser::Parser;
pub use registry::LanguageRegistry;
pub use tree::{Query, Tree};
