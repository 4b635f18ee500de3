//! Toolchain resolution for Android cross-compilation.
//!
//! A wrapper around a build driver hands this library the arguments it was
//! called with and what the process environment holds. The library works out
//! whether an Android target is being built, which NDK toolchain serves it, at
//! which API level, and which variables the build driver has to see; and it
//! turns the way the build driver ended into an exit code.
//!
//! The library performs no input or output. Whenever a decision depends on
//! the file system, it hands out a question and goes on when it is given the
//! answer, so that the same decisions can be made on a disk and on a
//! description of one.
//!
//! - [`session`] is one run, from the arguments to the launch of the build
//!   driver; [`exit`] is what follows the launch.
//! - [`args`], [`triple`], [`resolver`], [`layout`], [`api`], [`flags`] and
//!   [`variables`] are the parts of a run.
//! - [`environment`], [`probe`], [`host`] and [`failure`] are what goes in and
//!   what comes out.
//! - [`text`] holds the two kinds of string that everything else is made of.
//! - [`guarantees`] states what holds of every run.

pub mod api;
pub mod args;
pub mod environment;
pub mod exit;
pub mod failure;
pub mod flags;
pub mod guarantees;
pub mod host;
pub mod layout;
pub mod probe;
pub mod resolver;
pub mod session;
pub mod text;
pub mod triple;
pub mod variables;
