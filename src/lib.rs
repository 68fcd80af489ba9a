//! Unsafety metrics for Rust sources: a scope-tracking walk over a syntax
//! outline, a token counter, their reconciliation into a per-file record,
//! and the field-wise merge of records.

pub mod cli;
pub mod engine;
pub mod outline;
pub mod parse;
pub mod stats;
pub mod tokens;

pub use stats::Stats;
pub use outline::{Scope, SyntaxEvent, VisitorStats};
pub use tokens::{Token, TokenStats};
pub use engine::{count_code_lines, EvalError};
pub use parse::parse_source;
pub use cli::Cli;
