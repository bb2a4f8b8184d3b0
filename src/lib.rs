//! Plausibility checks for the vertical metrics of a font file.
//!
//! A check rule reads two tables of a font (`OS/2` and `head`), derives the
//! range in which a metric is expected to lie from one of them, and reports
//! each value of the other that falls outside that range as a leveled
//! [`Diagnostic`]. The runner applies an ordered list of rules to one font.

pub mod diagnostic;
pub mod font_tables;
pub mod runner;
pub mod win_metrics;

pub use diagnostic::{CheckError, Diagnostic, Level, MetricRange};
pub use runner::{run_checks, Check};
pub use win_metrics::check_win_ascent_and_descent;
