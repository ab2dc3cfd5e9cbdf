//! What is known of one interpreter once it has answered.

use vstd::prelude::*;
use vstd::string::StringExecFns;

use crate::decimal::{decimal_text, push_decimal};
use crate::error::{Error, ErrorView, Field, ValueKind};
use crate::text::same_text;

verus! {

/// The flavour of a Python interpreter. There are exactly two: a name that
/// is neither is refused, never taken for a third.
#[derive(Debug, Clone, Copy, PartialEq, Eq, Hash, Structural)]
pub enum PythonImplementation {
    CPython,
    PyPy,
}

/// The version of an interpreter.
#[derive(Debug, Clone, PartialEq, Eq, Hash, Structural)]
pub struct PythonVersion {
    pub major: u8,
    pub minor: u8,
    pub implementation: PythonImplementation,
}

/// Information about a Python interpreter, as the interpreter itself
/// gave it.
#[derive(Debug, Clone, PartialEq, Eq)]
pub struct InterpreterConfig {
    pub version: PythonVersion,
    /// The directory that holds the interpreter's shared library, where the
    /// interpreter knows of one.
    pub libdir: Option<String>,
    /// Whether a shared library of the interpreter is available.
    pub shared: bool,
    /// The version as it appears in the name of the library to link.
    pub ld_version: String,
    /// Prefix used for determining the directory of libpython.
    pub base_prefix: String,
    /// The path of the interpreter's executable, as the interpreter gives it.
    pub executable: String,
    /// The width of a pointer in bytes.
    pub calcsize_pointer: u32,
}

/// An [`InterpreterConfig`] with its texts as sequences of characters.
pub struct InterpreterConfigView {
    pub version: PythonVersion,
    pub libdir: Option<Seq<char>>,
    pub shared: bool,
    pub ld_version: Seq<char>,
    pub base_prefix: Seq<char>,
    pub executable: Seq<char>,
    pub calcsize_pointer: u32,
}

impl View for InterpreterConfig {
    type V = InterpreterConfigView;

    open spec fn view(&self) -> InterpreterConfigView {
        InterpreterConfigView {
            version: self.version,
            libdir: match self.libdir {
                Some(dir) => Some(dir@),
                None => None,
            },
            shared: self.shared,
            ld_version: self.ld_version@,
            base_prefix: self.base_prefix@,
            executable: self.executable@,
            calcsize_pointer: self.calcsize_pointer,
        }
    }
}

impl PythonImplementation {
    /// The name of the implementation, as the interpreter prints it.
    pub open spec fn spec_name(self) -> Seq<char> {
        match self {
            PythonImplementation::CPython => "CPython"@,
            PythonImplementation::PyPy => "PyPy"@,
        }
    }

    /// The implementation that `name` names, if it names one.
    pub open spec fn named(name: Seq<char>) -> Option<PythonImplementation> {
        if name == "CPython"@ {
            Some(PythonImplementation::CPython)
        } else if name == "PyPy"@ {
            Some(PythonImplementation::PyPy)
        } else {
            None
        }
    }

    /// The name of the implementation, as the interpreter prints it.
    pub fn name(self) -> (name: &'static str)
        ensures
            name@ == self.spec_name(),
    {
        match self {
            PythonImplementation::CPython => "CPython",
            PythonImplementation::PyPy => "PyPy",
        }
    }

    /// The implementation that `name` names. Only the exact names `CPython`
    /// and `PyPy` are known.
    pub fn from_name(name: &str) -> (found: Option<PythonImplementation>)
        ensures
            found == Self::named(name@),
    {
        if same_text(name, "CPython") {
            Some(PythonImplementation::CPython)
        } else if same_text(name, "PyPy") {
            Some(PythonImplementation::PyPy)
        } else {
            None
        }
    }

    /// Each implementation is found again under its own name.
    pub proof fn lemma_named_by_name(self)
        ensures
            Self::named(self.spec_name()) == Some(self),
    {
        reveal_strlit("CPython");
        reveal_strlit("PyPy");
        assert("CPython"@.len() != "PyPy"@.len());
    }
}

impl std::str::FromStr for PythonImplementation {
    type Err = Error;

    /// Reads the name of an implementation. Any other text is refused as a
    /// malformed `implementation` field.
    fn from_str(s: &str) -> (found: Result<Self, Error>)
        ensures
            match found {
                Ok(implementation) => Self::named(s@) == Some(implementation),
                Err(error) => Self::named(s@) is None && error@ == (ErrorView::MalformedField {
                    field: Field::Implementation,
                    value: s@,
                    expected: ValueKind::Implementation,
                }),
            },
    {
        match PythonImplementation::from_name(s) {
            Some(implementation) => Ok(implementation),
            None => Err(
                Error::MalformedField {
                    field: Field::Implementation,
                    value: s.to_owned(),
                    expected: ValueKind::Implementation,
                },
            ),
        }
    }
}

impl PythonVersion {
    /// The version for a reader: the implementation, a blank, and the two
    /// numbers with a dot between them.
    pub open spec fn text(self) -> Seq<char> {
        self.implementation.spec_name() + seq![' '] + decimal_text(self.major as nat) + seq!['.']
            + decimal_text(self.minor as nat)
    }

    /// The version for a reader, such as `CPython 3.11`.
    pub fn to_text(&self) -> (text: String)
        ensures
            text@ == self.text(),
    {
        proof {
            reveal_strlit(" ");
            reveal_strlit(".");
        }
        let mut text = String::from_str(self.implementation.name());
        text.append(" ");
        push_decimal(&mut text, self.major as u32);
        text.append(".");
        push_decimal(&mut text, self.minor as u32);
        text
    }
}

} // verus!
