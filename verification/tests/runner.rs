use python_config::{script_output, Error, RunOutcome, INTROSPECTION_SCRIPT};

#[test]
fn a_missing_executable_is_not_found() {
    assert_eq!(
        script_output("python9", "print(1)", RunOutcome::NotFound),
        Err(Error::NotFound { interpreter: "python9".to_string() })
    );
}

#[test]
fn a_failed_launch_keeps_its_reason() {
    assert_eq!(
        script_output(
            "/etc/passwd",
            "print(1)",
            RunOutcome::LaunchFailed { reason: "Permission denied (os error 13)".to_string() }
        ),
        Err(Error::LaunchFailure {
            interpreter: "/etc/passwd".to_string(),
            reason: "Permission denied (os error 13)".to_string(),
        })
    );
}

#[test]
fn a_failure_status_is_a_script_failure_whatever_was_printed() {
    let printed = b"version_major 3\nversion_minor 11\n".to_vec();
    assert_eq!(
        script_output("python", "import nothing", RunOutcome::Exited { success: false, stdout: printed }),
        Err(Error::ScriptFailure { script: "import nothing".to_string() })
    );
    assert_eq!(
        script_output("python", "import nothing", RunOutcome::Exited { success: false, stdout: vec![0xff] }),
        Err(Error::ScriptFailure { script: "import nothing".to_string() })
    );
    assert_eq!(
        script_output("python", "", RunOutcome::Exited { success: false, stdout: Vec::new() }),
        Err(Error::ScriptFailure { script: String::new() })
    );
}

#[test]
fn output_that_is_not_utf8_is_an_encoding_failure() {
    for bytes in [vec![0xffu8], vec![b'a', 0xc3], vec![0xed, 0xa0, 0x80], vec![0xc0, 0x80], vec![b'o', b'k', 0x80]] {
        assert_eq!(
            script_output("python", "print(1)", RunOutcome::Exited { success: true, stdout: bytes }),
            Err(Error::EncodingFailure)
        );
    }
}

#[test]
fn output_is_decoded() {
    assert_eq!(
        script_output("python", "print(1)", RunOutcome::Exited { success: true, stdout: b"1\n".to_vec() }),
        Ok("1\n".to_string())
    );
    assert_eq!(
        script_output("python", "print(1)", RunOutcome::Exited { success: true, stdout: Vec::new() }),
        Ok(String::new())
    );
    let bytes = vec![0x7a, 0x6f, 0xc3, 0xab, 0x20, 0xe6, 0x97, 0xa5, 0x20, 0xf0, 0x9f, 0x90, 0x8d];
    let text = script_output("python", "print(1)", RunOutcome::Exited { success: true, stdout: bytes }).unwrap();
    assert_eq!(text, "zoë 日 🐍");
    assert_eq!(text.chars().count(), 7);
}

#[test]
fn the_script_prints_every_field() {
    for key in [
        "version_major",
        "version_minor",
        "implementation",
        "libdir",
        "ld_version",
        "base_prefix",
        "shared",
        "executable",
        "calcsize_pointer",
    ] {
        assert!(INTROSPECTION_SCRIPT.contains(&format!("print(\"{}\", ", key)), "{}", key);
    }
}
