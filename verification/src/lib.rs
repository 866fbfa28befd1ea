//! Lifecycle of the source modules that make up a development environment.
//!
//! Every module of an environment is a worktree of a backing repository. The
//! library decides which commands of the version-control tool have to run and
//! what their outcome means for the module's recorded status; it never starts
//! a process itself. A caller runs each requested command and hands the reply
//! back.
pub mod config;
pub mod git;
pub mod kernel;
pub mod mkosi_kernel;
pub mod module;
pub mod util;
