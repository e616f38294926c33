//! Boundary errors for command handlers: chained `anyhow` errors are turned
//! into a single value that renders as one string, fully or redacted.

mod chain;
mod convert;
pub mod demo;
mod error;
mod raise;

pub use chain::{chain_of, chain_text, outer_message};
pub use error::{
    display_text, redacted_text, serialized_text, ErrorMode, TACommandError, TAResult, BUILD_MODE,
};
pub use convert::{lemma_failure_keeps_chain, lemma_success_unchanged, IntoEmptyTAResult, IntoTAResult};
pub use raise::{
    bail, bail_error, condition_message, contains_text, ensure, ensure_or, ensure_or_error,
    fails_with, fails_with_error, lemma_bail_serializes_message,
    lemma_condition_message_names_condition,
};
