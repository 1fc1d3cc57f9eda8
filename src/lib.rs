//! Control of a dual-GPU laptop: the power state of the discrete GPU, read
//! from and written to a kernel pseudo-file, and the choice of the active GPU,
//! made by an external selector helper.
//!
//! The library holds every decision of the tool: which command a pair of
//! subcommand names asks for, which single external operation that command
//! performs, how the text that comes back is classified, and how each outcome
//! maps to an exit status. Reading the file, running the helper and printing
//! are left to the caller.

pub mod text;
pub mod error;
pub mod power;
pub mod gpu;
pub mod command;
