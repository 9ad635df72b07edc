//! The driver's side of a type checker that runs as a child process: the
//! model of its diagnostics and how they merge, the protocol loops as state
//! machines that say what to do next, the invocation of the child, the
//! statistics over suppression comments, and the linter for unused macros.
//!
//! Nothing here reads or writes: a runner performs the actions that the
//! loops ask for and hands back what they yield.

pub mod command;
pub mod diagnostics;
pub mod ids;
pub mod ipc;
pub mod laws;
pub mod protocol;
pub mod shell;
pub mod stats;
pub mod text_range;
pub mod unused_macro;

pub use command::CommandProxy;
pub use command::Eqwalizer;
pub use diagnostics::EqwalizerDiagnostic;
pub use diagnostics::EqwalizerDiagnostics;
pub use stats::EqwalizerStats;
pub use text_range::TextRange;
