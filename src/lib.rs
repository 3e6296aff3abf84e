//! Supervision of long-running worker tasks: the progress model, the
//! two-tier progress-line parser, the per-kind exclusive task slot and the
//! per-run monitor that derives the terminal event from the exit outcome.

pub mod catalog;
pub mod parse;
pub mod progress;
pub mod run;
pub mod slot;
pub mod text;
pub mod worker;
