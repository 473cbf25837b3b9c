//! Decision logic of a monorepo task runner: which commands to run for which
//! target, how the outcomes of a phase decide the next one, how tool versions
//! are judged, and how test-collection and test-report documents are edited
//! and summarised. Everything here works on plain values: running processes
//! and reading and writing files is left to the caller, who is told what to
//! do and reports back what came of it. The one thing that is looked up here
//! is whether a tool is on the search path.

pub mod collection;
pub mod config;
pub mod environment;
pub mod executor;
pub mod generate;
pub mod json;
pub mod lint;
pub mod orchestrator;
pub mod report;
pub mod suite;
pub mod targets;
pub mod text;
