//! What can go wrong while an interpreter is asked about itself, and the
//! fields of its answer.

use vstd::prelude::*;
use vstd::string::StringExecFns;

verus! {

/// A key of the introspection output.
#[derive(Debug, Clone, Copy, PartialEq, Eq, Hash, Structural)]
pub enum Field {
    VersionMajor,
    VersionMinor,
    Implementation,
    Libdir,
    Shared,
    LdVersion,
    BasePrefix,
    Executable,
    CalcsizePointer,
}

/// The type that the value of a field is read as.
#[derive(Debug, Clone, Copy, PartialEq, Eq, Hash, Structural)]
pub enum ValueKind {
    /// A decimal number from 0 to 255.
    U8,
    /// A decimal number from 0 to 4294967295.
    U32,
    /// The name of a Python implementation.
    Implementation,
    /// `True`, or anything else for false.
    Flag,
    /// Any text.
    Text,
}

impl Field {
    /// The key as the interpreter prints it.
    pub open spec fn spec_name(self) -> Seq<char> {
        match self {
            Field::VersionMajor => "version_major"@,
            Field::VersionMinor => "version_minor"@,
            Field::Implementation => "implementation"@,
            Field::Libdir => "libdir"@,
            Field::Shared => "shared"@,
            Field::LdVersion => "ld_version"@,
            Field::BasePrefix => "base_prefix"@,
            Field::Executable => "executable"@,
            Field::CalcsizePointer => "calcsize_pointer"@,
        }
    }

    /// The key as the interpreter prints it.
    pub fn name(self) -> (name: &'static str)
        ensures
            name@ == self.spec_name(),
    {
        match self {
            Field::VersionMajor => "version_major",
            Field::VersionMinor => "version_minor",
            Field::Implementation => "implementation",
            Field::Libdir => "libdir",
            Field::Shared => "shared",
            Field::LdVersion => "ld_version",
            Field::BasePrefix => "base_prefix",
            Field::Executable => "executable",
            Field::CalcsizePointer => "calcsize_pointer",
        }
    }

    /// The type that the field's value is read as.
    pub open spec fn spec_kind(self) -> ValueKind {
        match self {
            Field::VersionMajor | Field::VersionMinor => ValueKind::U8,
            Field::Implementation => ValueKind::Implementation,
            Field::Shared => ValueKind::Flag,
            Field::CalcsizePointer => ValueKind::U32,
            Field::Libdir | Field::LdVersion | Field::BasePrefix | Field::Executable => ValueKind::Text,
        }
    }

    /// The type that the field's value is read as.
    #[verifier::when_used_as_spec(spec_kind)]
    pub fn kind(self) -> (kind: ValueKind)
        ensures
            kind == self.spec_kind(),
    {
        match self {
            Field::VersionMajor | Field::VersionMinor => ValueKind::U8,
            Field::Implementation => ValueKind::Implementation,
            Field::Shared => ValueKind::Flag,
            Field::CalcsizePointer => ValueKind::U32,
            Field::Libdir | Field::LdVersion | Field::BasePrefix | Field::Executable => ValueKind::Text,
        }
    }
}

impl ValueKind {
    /// The name of the type.
    pub open spec fn spec_name(self) -> Seq<char> {
        match self {
            ValueKind::U8 => "u8"@,
            ValueKind::U32 => "u32"@,
            ValueKind::Implementation => "PythonImplementation"@,
            ValueKind::Flag => "bool"@,
            ValueKind::Text => "String"@,
        }
    }

    /// The name of the type.
    pub fn name(self) -> (name: &'static str)
        ensures
            name@ == self.spec_name(),
    {
        match self {
            ValueKind::U8 => "u8",
            ValueKind::U32 => "u32",
            ValueKind::Implementation => "PythonImplementation",
            ValueKind::Flag => "bool",
            ValueKind::Text => "String",
        }
    }
}

/// Why no configuration could be had from an interpreter.
#[derive(Debug, Clone, PartialEq, Eq)]
pub enum Error {
    /// No executable was found under the given name.
    NotFound { interpreter: String },
    /// The executable was found but could not be run; `reason` is what the
    /// operating system said.
    LaunchFailure { interpreter: String, reason: String },
    /// The interpreter ran the script and exited with a failure status.
    ScriptFailure { script: String },
    /// What the script printed is not valid UTF-8.
    EncodingFailure,
    /// The output lacks a required key.
    MissingField { field: Field, output: String },
    /// The value of a key cannot be read as the type it should have.
    MalformedField { field: Field, value: String, expected: ValueKind },
}

/// An [`Error`] with its texts as sequences of characters.
pub enum ErrorView {
    NotFound { interpreter: Seq<char> },
    LaunchFailure { interpreter: Seq<char>, reason: Seq<char> },
    ScriptFailure { script: Seq<char> },
    EncodingFailure,
    MissingField { field: Field, output: Seq<char> },
    MalformedField { field: Field, value: Seq<char>, expected: ValueKind },
}

impl View for Error {
    type V = ErrorView;

    open spec fn view(&self) -> ErrorView {
        match *self {
            Error::NotFound { interpreter } => ErrorView::NotFound { interpreter: interpreter@ },
            Error::LaunchFailure { interpreter, reason } => ErrorView::LaunchFailure {
                interpreter: interpreter@,
                reason: reason@,
            },
            Error::ScriptFailure { script } => ErrorView::ScriptFailure { script: script@ },
            Error::EncodingFailure => ErrorView::EncodingFailure,
            Error::MissingField { field, output } => ErrorView::MissingField {
                field,
                output: output@,
            },
            Error::MalformedField { field, value, expected } => ErrorView::MalformedField {
                field,
                value: value@,
                expected,
            },
        }
    }
}

impl ErrorView {
    /// The message for a reader.
    pub open spec fn message(self) -> Seq<char> {
        match self {
            ErrorView::NotFound { interpreter } => "Could not find any interpreter at "@
                + interpreter + ", are you sure you have Python installed on your PATH?"@,
            ErrorView::LaunchFailure { interpreter, reason } =>
                "Failed to run the Python interpreter at "@ + interpreter + ": "@ + reason,
            ErrorView::ScriptFailure { script } => "Python script failed: "@ + script,
            ErrorView::EncodingFailure => "Python script output is not valid UTF-8"@,
            ErrorView::MissingField { field, output } => "Failed to get "@ + field.spec_name()
                + " from the python interpreter. Output was:\n\n"@ + output,
            ErrorView::MalformedField { field, value, expected } => "Failed to read "@
                + field.spec_name() + " from the python interpreter as "@ + expected.spec_name()
                + ": "@ + value,
        }
    }
}

impl Error {
    /// The message for a reader. It names what was tried: the interpreter,
    /// the script, or the field with the output or value at fault.
    pub fn message(&self) -> (text: String)
        ensures
            text@ == self@.message(),
    {
        match self {
            Error::NotFound { interpreter } => {
                let mut text = String::from_str("Could not find any interpreter at ");
                text.append(interpreter.as_str());
                text.append(", are you sure you have Python installed on your PATH?");
                text
            },
            Error::LaunchFailure { interpreter, reason } => {
                let mut text = String::from_str("Failed to run the Python interpreter at ");
                text.append(interpreter.as_str());
                text.append(": ");
                text.append(reason.as_str());
                text
            },
            Error::ScriptFailure { script } => {
                let mut text = String::from_str("Python script failed: ");
                text.append(script.as_str());
                text
            },
            Error::EncodingFailure => String::from_str("Python script output is not valid UTF-8"),
            Error::MissingField { field, output } => {
                let mut text = String::from_str("Failed to get ");
                text.append(field.name());
                text.append(" from the python interpreter. Output was:\n\n");
                text.append(output.as_str());
                text
            },
            Error::MalformedField { field, value, expected } => {
                let mut text = String::from_str("Failed to read ");
                text.append(field.name());
                text.append(" from the python interpreter as ");
                text.append(expected.name());
                text.append(": ");
                text.append(value.as_str());
                text
            },
        }
    }
}

/// The view of a result: the view of what it holds.
pub open spec fn result_view<T: View>(r: Result<T, Error>) -> Result<T::V, ErrorView> {
    match r {
        Ok(value) => Ok(value@),
        Err(error) => Err(error@),
    }
}

} // verus!
