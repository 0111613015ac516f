//! One-shot health check of a remote node: the decisions of a single
//! connect / query / disconnect cycle, stated and proved.
//!
//! The library performs no I/O. A caller drives a [`driver::Driver`] by
//! performing the action each step asks for and reporting what came of it;
//! the driver sees to it that an opened connection is closed exactly once
//! and that the run ends in a [`report::Report`].
//!
//! - [`encoding`], [`policy`]: what a run is configured with.
//! - [`verdict`], [`text`]: from the node's answer to a verdict and its
//!   summary line.
//! - [`error`], [`report`]: how a run ends.
//! - [`driver`]: the run, step by step.
//! - [`run`], [`session`]: what holds of every run, over arbitrary events and
//!   against an endpoint of fixed behaviour.

pub mod driver;
pub mod encoding;
pub mod error;
pub mod policy;
pub mod report;
pub mod run;
pub mod session;
pub mod text;
pub mod verdict;
