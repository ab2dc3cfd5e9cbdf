use python_config::{Error, Field, PythonImplementation, PythonVersion, ValueKind};

#[test]
fn not_found_names_the_interpreter_and_hints_at_the_path() {
    let error = Error::NotFound { interpreter: "python9".to_string() };
    assert_eq!(
        error.message(),
        "Could not find any interpreter at python9, are you sure you have Python installed on your PATH?"
    );
}

#[test]
fn launch_failure_gives_the_reason() {
    let error = Error::LaunchFailure {
        interpreter: "/usr/bin/python".to_string(),
        reason: "Permission denied (os error 13)".to_string(),
    };
    assert_eq!(
        error.message(),
        "Failed to run the Python interpreter at /usr/bin/python: Permission denied (os error 13)"
    );
}

#[test]
fn script_failure_shows_the_script() {
    let error = Error::ScriptFailure { script: "import sys\nsys.exit(1)".to_string() };
    assert_eq!(error.message(), "Python script failed: import sys\nsys.exit(1)");
}

#[test]
fn encoding_failure_says_so() {
    assert_eq!(Error::EncodingFailure.message(), "Python script output is not valid UTF-8");
}

#[test]
fn missing_field_names_the_field_and_shows_the_output() {
    let error = Error::MissingField {
        field: Field::LdVersion,
        output: "version_major 3\n".to_string(),
    };
    assert_eq!(
        error.message(),
        "Failed to get ld_version from the python interpreter. Output was:\n\nversion_major 3\n"
    );
}

#[test]
fn malformed_field_names_field_type_and_value() {
    let error = Error::MalformedField {
        field: Field::VersionMajor,
        value: "three".to_string(),
        expected: ValueKind::U8,
    };
    assert_eq!(
        error.message(),
        "Failed to read version_major from the python interpreter as u8: three"
    );
}

#[test]
fn fields_have_their_names_and_kinds() {
    let all = [
        (Field::VersionMajor, "version_major", ValueKind::U8),
        (Field::VersionMinor, "version_minor", ValueKind::U8),
        (Field::Implementation, "implementation", ValueKind::Implementation),
        (Field::Libdir, "libdir", ValueKind::Text),
        (Field::Shared, "shared", ValueKind::Flag),
        (Field::LdVersion, "ld_version", ValueKind::Text),
        (Field::BasePrefix, "base_prefix", ValueKind::Text),
        (Field::Executable, "executable", ValueKind::Text),
        (Field::CalcsizePointer, "calcsize_pointer", ValueKind::U32),
    ];
    for (field, name, kind) in all {
        assert_eq!(field.name(), name);
        assert_eq!(field.kind(), kind);
    }
    assert_eq!(ValueKind::U8.name(), "u8");
    assert_eq!(ValueKind::U32.name(), "u32");
    assert_eq!(ValueKind::Implementation.name(), "PythonImplementation");
    assert_eq!(ValueKind::Flag.name(), "bool");
    assert_eq!(ValueKind::Text.name(), "String");
}

#[test]
fn implementations_are_known_by_their_exact_names() {
    assert_eq!(PythonImplementation::from_name("CPython"), Some(PythonImplementation::CPython));
    assert_eq!(PythonImplementation::from_name("PyPy"), Some(PythonImplementation::PyPy));
    assert_eq!(PythonImplementation::from_name("pypy"), None);
    assert_eq!(PythonImplementation::from_name("CPython3"), None);
    assert_eq!(PythonImplementation::from_name("IronPython"), None);
    assert_eq!(PythonImplementation::from_name(""), None);
    assert_eq!(PythonImplementation::CPython.name(), "CPython");
    assert_eq!(PythonImplementation::PyPy.name(), "PyPy");
}

#[test]
fn implementations_parse_from_strings() {
    assert_eq!("CPython".parse::<PythonImplementation>(), Ok(PythonImplementation::CPython));
    assert_eq!("PyPy".parse::<PythonImplementation>(), Ok(PythonImplementation::PyPy));
    assert_eq!(
        "Jython".parse::<PythonImplementation>(),
        Err(Error::MalformedField {
            field: Field::Implementation,
            value: "Jython".to_string(),
            expected: ValueKind::Implementation,
        })
    );
}

#[test]
fn versions_are_written_for_a_reader() {
    let version = PythonVersion { major: 3, minor: 11, implementation: PythonImplementation::CPython };
    assert_eq!(version.to_text(), "CPython 3.11");
    let version = PythonVersion { major: 2, minor: 7, implementation: PythonImplementation::PyPy };
    assert_eq!(version.to_text(), "PyPy 2.7");
    let version = PythonVersion { major: 0, minor: 255, implementation: PythonImplementation::PyPy };
    assert_eq!(version.to_text(), "PyPy 0.255");
    let version = PythonVersion { major: 100, minor: 10, implementation: PythonImplementation::CPython };
    assert_eq!(version.to_text(), "CPython 100.10");
}
