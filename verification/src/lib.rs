//! A command-execution bridge: resolves a bare command name to a concrete
//! executable across an ordered set of extension conventions, decides whether
//! the execution context restricts which kinds of executables may run, picks a
//! launch strategy, and models the stream relay and the exit-code mapping of
//! the spawned child.

pub mod context;
pub mod exit_status;
pub mod locate;
pub mod messages;
pub mod names;
pub mod plan;
pub mod relay;
pub mod rules;

pub use context::ExecutionContext;
pub use locate::{LocateError, ResolvedExecutable};
pub use plan::{CommandLine, ExecutionPlan};
