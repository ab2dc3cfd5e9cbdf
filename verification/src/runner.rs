//! Judging one run of the introspection script.
//!
//! Starting the interpreter is left to the caller. What came of it is handed
//! over as a [`RunOutcome`], and this module says what it means: the text
//! that the script printed, or the reason why there is none.

use vstd::prelude::*;
use vstd::utf8::{decode_utf8, valid_utf8};

use crate::error::{result_view, Error, ErrorView};

verus! {

/// The script that an interpreter is asked to run. It prints one
/// `key value` pair per line.
pub const INTROSPECTION_SCRIPT: &'static str = r#"
from __future__ import print_function

import json
import platform
import struct
import sys
import sysconfig

PYPY = platform.python_implementation() == "PyPy"

try:
    base_prefix = sys.base_prefix
except AttributeError:
    base_prefix = sys.exec_prefix

libdir = sysconfig.get_config_var('LIBDIR')

print("version_major", sys.version_info[0])
print("version_minor", sys.version_info[1])
print("implementation", platform.python_implementation())
if libdir is not None:
    print("libdir", libdir)
print("ld_version", sysconfig.get_config_var('LDVERSION') or sysconfig.get_config_var('py_version_short'))
print("base_prefix", base_prefix)
print("shared", PYPY or bool(sysconfig.get_config_var('Py_ENABLE_SHARED')))
print("executable", sys.executable)
print("calcsize_pointer", struct.calcsize("P"))
"#;

/// What came of the attempt to run a script with an interpreter.
#[derive(Debug, Clone, PartialEq, Eq)]
pub enum RunOutcome {
    /// No executable was found under the interpreter's name.
    NotFound,
    /// The executable could not be started, or running it failed in the
    /// operating system; `reason` is what the operating system said.
    LaunchFailed { reason: String },
    /// The interpreter ran and exited. `success` tells whether its exit
    /// status was zero, `stdout` is what it wrote to its standard output.
    Exited { success: bool, stdout: Vec<u8> },
}

/// A [`RunOutcome`] with its contents as sequences.
pub enum RunOutcomeView {
    NotFound,
    LaunchFailed { reason: Seq<char> },
    Exited { success: bool, stdout: Seq<u8> },
}

impl View for RunOutcome {
    type V = RunOutcomeView;

    open spec fn view(&self) -> RunOutcomeView {
        match *self {
            RunOutcome::NotFound => RunOutcomeView::NotFound,
            RunOutcome::LaunchFailed { reason } => RunOutcomeView::LaunchFailed { reason: reason@ },
            RunOutcome::Exited { success, stdout } => RunOutcomeView::Exited {
                success,
                stdout: stdout@,
            },
        }
    }
}

/// What a run of `script` with `interpreter` gave: the text that the script
/// printed, or the error that stands for the outcome.
///
/// An exit status other than zero is a failure of the script whatever was
/// printed. Only the output of a run that succeeded is decoded.
pub open spec fn printed(interpreter: Seq<char>, script: Seq<char>, outcome: RunOutcomeView) -> Result<
    Seq<char>,
    ErrorView,
> {
    match outcome {
        RunOutcomeView::NotFound => Err(ErrorView::NotFound { interpreter }),
        RunOutcomeView::LaunchFailed { reason } => Err(
            ErrorView::LaunchFailure { interpreter, reason },
        ),
        RunOutcomeView::Exited { success, stdout } => if !success {
            Err(ErrorView::ScriptFailure { script })
        } else if valid_utf8(stdout) {
            Ok(decode_utf8(stdout))
        } else {
            Err(ErrorView::EncodingFailure)
        },
    }
}

/// `String::from_utf8` of the standard library: the bytes as a string if
/// they are valid UTF-8, in which case the string holds the characters that
/// the bytes encode; nothing otherwise.
#[verifier::external_body]
fn text_of(bytes: Vec<u8>) -> (text: Option<String>)
    ensures
        text is Some <==> valid_utf8(bytes@),
        text matches Some(s) ==> s@ == decode_utf8(bytes@),
{
    String::from_utf8(bytes).ok()
}

/// Says what a run of `script` with `interpreter` gave.
pub fn script_output(interpreter: &str, script: &str, outcome: RunOutcome) -> (output: Result<
    String,
    Error,
>)
    ensures
        result_view(output) == printed(interpreter@, script@, outcome@),
{
    match outcome {
        RunOutcome::NotFound => Err(Error::NotFound { interpreter: interpreter.to_owned() }),
        RunOutcome::LaunchFailed { reason } => Err(
            Error::LaunchFailure { interpreter: interpreter.to_owned(), reason },
        ),
        RunOutcome::Exited { success, stdout } => {
            if !success {
                Err(Error::ScriptFailure { script: script.to_owned() })
            } else {
                match text_of(stdout) {
                    Some(text) => Ok(text),
                    None => Err(Error::EncodingFailure),
                }
            }
        },
    }
}

} // verus!
