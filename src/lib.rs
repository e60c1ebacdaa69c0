//! Command-line argument values that come either from the argument itself
//! or from the process's standard input, and output destinations that are
//! either standard output or a file.
//!
//! Standard input is a single stream shared by the whole process, so it may
//! be claimed at most once: a [`StdinGuard`] records whether it was.

mod error;
mod file_or_stdin;
mod file_or_stdout;
mod guard;
mod maybe_stdin;
mod source;
mod text;

pub use error::StdinError;
pub use file_or_stdin::{claimed_from, lemma_stdin_or_file, Claimed, FileOrStdin};
pub use file_or_stdout::{lemma_stdout_or_file, FileOrStdout, WriteMode};
pub use guard::{
    claim_step, claims_outcomes, lemma_only_first_claim_succeeds, StdinClaim,
    StdinGuard,
};
pub use maybe_stdin::{converts_to, lemma_trailing_white_space_converts_alike, MaybeStdin};
pub use source::{dest_of, is_stdio_token, names_stdio, source_of, Dest, Source};
pub use text::{
    conversion_outcome, convert_trimmed, converted, is_white_space, lemma_leading_white_space_kept,
    lemma_trailing_white_space_ignored, outcome_of, trim_end, trim_trailing, white_space,
};
