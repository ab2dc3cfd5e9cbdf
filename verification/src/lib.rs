//! Discovery and introspection of locally installed Python interpreters.
//!
//! An interpreter is asked about itself by running [`INTROSPECTION_SCRIPT`]
//! with it. The library never starts a process: the caller runs the
//! interpreter and hands over what came of it as a [`RunOutcome`]. The
//! library judges the outcome, reads the output, and decides which candidate
//! comes next.

pub mod config;
pub mod decimal;
pub mod discovery;
pub mod error;
pub mod parser;
pub mod report;
pub mod runner;
pub mod text;

pub use config::{InterpreterConfig, PythonImplementation, PythonVersion};
pub use discovery::{
    find_interpreter_matching, find_interpreters, get_config_from_interpreter, Discovery,
};
pub use error::{Error, Field, ValueKind};
pub use parser::parse_config;
pub use runner::{script_output, RunOutcome, INTROSPECTION_SCRIPT};
