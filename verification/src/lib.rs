//! Remote build driver: classifies a build invocation into targets and
//! options, checks local repository preconditions, generates the remote
//! build procedure, drives the remote session step by step, and stages the
//! returned artifacts locally.

pub mod args;
pub mod config;
pub mod driver;
pub mod quoting;
pub mod repo;
pub mod script;
