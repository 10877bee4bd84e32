//! A verified core for a retrying, model-driven document parser.
//!
//! A caller supplies a document and natural-language extraction
//! instructions.  A language model is asked for a one-shot extraction
//! script, the script is run in an isolated process against the document,
//! and its output is accepted only when the process exits cleanly and
//! prints a single well-formed JSON value.  Failures are recorded and fed
//! back to the model, up to a fixed attempt budget.
//!
//! This crate holds the verified logic of that loop: prompt composition,
//! the output contract of the sandboxed script, and the retry state
//! machine with its attempt log.  The model backend and the process
//! plumbing live outside, and hand plain values in and out.

/// Records of individual generation/execution attempts.
pub mod attempt;
/// Classification of a finished script run against the output contract.
pub mod executor;
/// Decimal rendering of integers for report and prompt text.
pub mod numfmt;
/// The retry state machine that drives generate/execute/validate rounds.
pub mod orchestrator;
/// System- and user-prompt composition, and attempt-history rendering.
pub mod prompt;
/// Substring containment over character sequences.
pub mod strutil;
