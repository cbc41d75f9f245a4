//! A scriptable web-crawling pipeline engine.
//!
//! A target describes an input and an ordered chain of steps; flows are
//! named chains that steps can stand for. The library compiles such a
//! description, in a tree of contexts that scopes arguments, into an
//! executor, and schedules units of work round by round until none is
//! left. Fetching, writing and running scripts are left to the embedding
//! program, which the library tells what to do next and which hands back
//! what came of it.
//!
//! * [`value`], [`utils`], [`text`]: argument maps and the interpolation of
//!   `${name}` placeholders.
//! * [`context`], [`environment`], [`target`], [`identity`]: the tree of
//!   contexts and what a target is bound to.
//! * [`worktypes`], [`descriptions`], [`compile`], [`station`]: the
//!   descriptions, what they compile to, and the compiler.
//! * [`work`], [`execution`], [`script`], [`package`]: units, outcomes, the
//!   scheduler and the execution of one compiled executor.
//! * [`repository`], [`flows`]: the targets of an environment.
//! * [`crawler`], [`task`], [`queue`], [`manifest`], [`paths`],
//!   [`failure`]: the task crawler, which fetches one page for each task.
pub mod error;
pub mod text;
pub mod value;
pub mod utils;
pub mod package;
pub mod environment;
mod shared;
pub mod identity;
pub mod worktypes;
pub mod descriptions;
pub mod target;
pub mod context;
pub mod station;
pub mod compile;
pub mod work;
pub mod execution;
pub mod script;
pub mod failure;
pub mod queue;
pub mod task;
pub mod crawler;
pub mod paths;
pub mod manifest;
pub mod repository;
pub mod flows;
