//! Turns a script's public functions into a deployable contract module: finds
//! the entry points, synthesises the dispatcher and the glue source, and
//! decides each step of the build.

pub mod catalog;
pub mod compile;
pub mod discovery;
pub mod dispatch;
pub mod error;
pub mod glue;
pub mod pipeline;
pub mod post;
pub mod profile;
pub mod project;
