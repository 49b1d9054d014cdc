//! Ordered regular-expression substitution rules: compile a batch of
//! pattern/replacement pairs once, then apply them in order to text.

pub mod engine;
pub mod matcher;
pub mod rules;

pub use matcher::{compiles, has_match, regex_source, replaced_all};
pub use rules::{ImmRule, ReplacerError, Rule};
pub use engine::replace;
