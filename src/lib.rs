//! Verbosity flags for command-line programs: a baseline severity level,
//! moved up by each `--verbose` and down by each `--quiet`, clamped to the
//! six-level scale from `off` to `trace`.

mod external;
mod filter;
mod level;
pub mod log;
mod verbosity;

pub use filter::{lemma_rank_round_trip, VerbosityFilter};
pub use level::{DebugLevel, ErrorLevel, InfoLevel, LogLevel, OffLevel, TraceLevel, WarnLevel};
pub use verbosity::{
    flags_between, lemma_flags_cancel, lemma_resolve_monotonic, lemma_saturates_at_bottom,
    lemma_saturates_at_top, resolve, Verbosity,
};
