//! Execution-configuration and dispatch layer of a multi-mode source-analysis
//! command-line tool.
//!
//! The library models the kind of run requested (check, lint, CI validation,
//! formatting, configuration migration, pattern search), derives from it the
//! decisions every collaborator needs — which optional capabilities to enable,
//! whether write access is required, which downstream pipeline runs — and
//! exposes a dispatcher that turns a populated [`execute::Execution`] into the
//! one pipeline invocation for this run.

pub mod cli_options;
pub mod execute;
pub mod features;
pub mod modes;
