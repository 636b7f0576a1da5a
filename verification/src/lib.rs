//! Tools to build a shell prompt from composable block producers.
//!
//! A prompt is a sequence of [`Block`]s: styled text fragments. A
//! [`BlockProducer`] turns an [`Environment`] (a read-only snapshot of the
//! ambient state: working directory, previous exit code, previous command
//! duration, git repository facts) into such a sequence. Producers compose by
//! concatenation, first-non-empty choice, separator interleaving and style
//! overlay; [`block::spec_produce`] states exactly what each yields.

pub mod block;
pub mod color;
mod config;
pub mod digits;
mod env;
mod err;
mod generation;
pub mod paths;
mod span;
pub mod style;
pub mod symbol;

pub use block::{Block, BlockProducer};
pub use color::Color;
pub use config::{default_alternative_prompt, default_pretty_prompt, fallback_prompt, Config};
pub use env::{Environment, HeadName, RepoFacts, RepoStatus};
pub use err::Error;
pub use generation::{classify_generation, GenerationError, GenerationEvent};
pub use span::{start_timer_duration, stop_timer_duration, CmdDuration, Span};
pub use style::Style;
pub use symbol::Symbol;
