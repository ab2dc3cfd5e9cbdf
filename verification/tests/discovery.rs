use python_config::{
    find_interpreter_matching, find_interpreters, get_config_from_interpreter, Error, Field,
    InterpreterConfig, PythonImplementation, PythonVersion, RunOutcome, INTROSPECTION_SCRIPT,
};

fn output(major: u8, minor: u8, executable: &str) -> RunOutcome {
    let text = format!(
        "version_major {}\nversion_minor {}\nimplementation CPython\nld_version {}.{}\nbase_prefix /usr\nshared True\nexecutable {}\ncalcsize_pointer 8\n",
        major, minor, major, minor, executable
    );
    RunOutcome::Exited { success: true, stdout: text.into_bytes() }
}

fn config(major: u8, minor: u8, executable: &str) -> InterpreterConfig {
    InterpreterConfig {
        version: PythonVersion { major, minor, implementation: PythonImplementation::CPython },
        libdir: None,
        shared: true,
        ld_version: format!("{}.{}", major, minor),
        base_prefix: "/usr".to_string(),
        executable: executable.to_string(),
        calcsize_pointer: 8,
    }
}

/// Stands for the machine: says what running each executable gives, and
/// keeps the names of those that were run.
struct Machine {
    python: RunOutcome,
    python3: RunOutcome,
    ran: Vec<String>,
}

impl Machine {
    fn run(&mut self, name: &str, script: &str) -> RunOutcome {
        assert_eq!(script, INTROSPECTION_SCRIPT);
        self.ran.push(name.to_string());
        match name {
            "python" => self.python.clone(),
            "python3" => self.python3.clone(),
            _ => RunOutcome::NotFound,
        }
    }

    fn all(&mut self) -> Vec<InterpreterConfig> {
        let mut search = find_interpreters();
        let mut found = Vec::new();
        while let Some(name) = search.candidate() {
            let outcome = self.run(name, INTROSPECTION_SCRIPT);
            if let Some(config) = search.advance(outcome) {
                found.push(config);
            }
        }
        found
    }

    fn first_matching<F: FnMut(&InterpreterConfig) -> bool>(&mut self, mut matches: F) -> Option<InterpreterConfig> {
        let mut search = find_interpreters();
        while let Some(name) = search.candidate() {
            let outcome = self.run(name, INTROSPECTION_SCRIPT);
            if let Some(config) = find_interpreter_matching(&mut search, outcome, &mut matches) {
                assert_eq!(search.candidate(), None);
                return Some(config);
            }
        }
        None
    }
}

#[test]
fn end_to_end_scenario() {
    let stdout = b"version_major 3\nversion_minor 11\nimplementation CPython\nld_version 3.11\nbase_prefix /usr\nshared True\nexecutable /usr/bin/stub\ncalcsize_pointer 8\n".to_vec();
    let config =
        get_config_from_interpreter("stub", RunOutcome::Exited { success: true, stdout }).unwrap();
    assert_eq!(config.version.major, 3);
    assert_eq!(config.version.minor, 11);
    assert_eq!(config.version.implementation, PythonImplementation::CPython);
    assert!(config.shared);
    assert_eq!(config.calcsize_pointer, 8);
    assert_eq!(config.libdir, None);
    assert_eq!(config.ld_version, "3.11");
    assert_eq!(config.base_prefix, "/usr");
    assert_eq!(config.executable, "/usr/bin/stub");
}

#[test]
fn errors_of_a_single_interpreter_reach_the_caller() {
    assert_eq!(
        get_config_from_interpreter("nowhere", RunOutcome::NotFound),
        Err(Error::NotFound { interpreter: "nowhere".to_string() })
    );
    assert_eq!(
        get_config_from_interpreter(
            "./python",
            RunOutcome::LaunchFailed { reason: "Exec format error (os error 8)".to_string() }
        ),
        Err(Error::LaunchFailure {
            interpreter: "./python".to_string(),
            reason: "Exec format error (os error 8)".to_string(),
        })
    );
    assert_eq!(
        get_config_from_interpreter("python", RunOutcome::Exited { success: false, stdout: Vec::new() }),
        Err(Error::ScriptFailure { script: INTROSPECTION_SCRIPT.to_string() })
    );
    assert_eq!(
        get_config_from_interpreter("python", RunOutcome::Exited { success: true, stdout: vec![0xfe] }),
        Err(Error::EncodingFailure)
    );
    assert_eq!(
        get_config_from_interpreter(
            "python",
            RunOutcome::Exited { success: true, stdout: b"version_major 3\n".to_vec() }
        ),
        Err(Error::MissingField {
            field: Field::VersionMinor,
            output: "version_major 3\n".to_string(),
        })
    );
}

#[test]
fn a_failed_script_gives_no_configuration_even_with_full_output() {
    let stdout = match output(3, 11, "/usr/bin/python") {
        RunOutcome::Exited { stdout, .. } => stdout,
        _ => unreachable!(),
    };
    assert_eq!(
        get_config_from_interpreter("python", RunOutcome::Exited { success: false, stdout }),
        Err(Error::ScriptFailure { script: INTROSPECTION_SCRIPT.to_string() })
    );
}

#[test]
fn candidates_come_in_order() {
    let mut search = find_interpreters();
    assert_eq!(search.candidate(), Some("python"));
    assert_eq!(search.candidate(), Some("python"));
    assert_eq!(search.advance(RunOutcome::NotFound), None);
    assert_eq!(search.candidate(), Some("python3"));
    assert_eq!(search.advance(output(3, 12, "/usr/bin/python3")), Some(config(3, 12, "/usr/bin/python3")));
    assert_eq!(search.candidate(), None);
    let over = search.clone();
    assert_eq!(search.advance(output(3, 12, "/usr/bin/python3")), None);
    assert_eq!(search, over);
    assert_eq!(search.candidate(), None);
}

#[test]
fn every_search_starts_afresh() {
    let mut first = find_interpreters();
    first.advance(RunOutcome::NotFound);
    first.finish();
    assert_eq!(first.candidate(), None);
    assert_eq!(find_interpreters().candidate(), Some("python"));
}

#[test]
fn all_interpreters_are_found_in_order() {
    let mut machine = Machine {
        python: output(2, 7, "/usr/bin/python"),
        python3: output(3, 11, "/usr/bin/python3"),
        ran: Vec::new(),
    };
    assert_eq!(
        machine.all(),
        vec![config(2, 7, "/usr/bin/python"), config(3, 11, "/usr/bin/python3")]
    );
    assert_eq!(machine.ran, vec!["python", "python3"]);
}

#[test]
fn candidates_that_fail_are_passed_over() {
    let failures = [
        RunOutcome::NotFound,
        RunOutcome::LaunchFailed { reason: "Permission denied (os error 13)".to_string() },
        RunOutcome::Exited { success: false, stdout: Vec::new() },
        RunOutcome::Exited { success: true, stdout: vec![0xff, 0xfe] },
        RunOutcome::Exited { success: true, stdout: b"version_major 3\n".to_vec() },
        RunOutcome::Exited { success: true, stdout: b"version_major three\n".to_vec() },
    ];
    for failure in failures {
        let mut machine = Machine {
            python: failure.clone(),
            python3: output(3, 11, "/usr/bin/python3"),
            ran: Vec::new(),
        };
        assert_eq!(machine.all(), vec![config(3, 11, "/usr/bin/python3")]);
        assert_eq!(machine.ran, vec!["python", "python3"]);
        let mut machine = Machine {
            python: output(3, 11, "/usr/bin/python"),
            python3: failure.clone(),
            ran: Vec::new(),
        };
        assert_eq!(machine.all(), vec![config(3, 11, "/usr/bin/python")]);
        let mut machine = Machine { python: failure.clone(), python3: failure, ran: Vec::new() };
        assert_eq!(machine.all(), Vec::new());
        assert_eq!(machine.ran, vec!["python", "python3"]);
    }
}

#[test]
fn nothing_is_run_after_the_first_match() {
    let mut machine = Machine {
        python: output(3, 9, "/usr/bin/python"),
        python3: output(3, 11, "/usr/bin/python3"),
        ran: Vec::new(),
    };
    let found = machine.first_matching(|config| config.version.major == 3);
    assert_eq!(found, Some(config(3, 9, "/usr/bin/python")));
    assert_eq!(machine.ran, vec!["python"]);
}

#[test]
fn the_search_goes_on_until_a_candidate_matches() {
    let mut machine = Machine {
        python: output(2, 7, "/usr/bin/python"),
        python3: output(3, 11, "/usr/bin/python3"),
        ran: Vec::new(),
    };
    let mut asked = Vec::new();
    let found = machine.first_matching(|config| {
        asked.push(config.executable.clone());
        config.version.major == 3
    });
    assert_eq!(found, Some(config(3, 11, "/usr/bin/python3")));
    assert_eq!(machine.ran, vec!["python", "python3"]);
    assert_eq!(asked, vec!["/usr/bin/python", "/usr/bin/python3"]);
}

#[test]
fn a_failed_candidate_does_not_match() {
    let mut machine = Machine {
        python: RunOutcome::NotFound,
        python3: output(3, 11, "/usr/bin/python3"),
        ran: Vec::new(),
    };
    let mut asked = 0;
    let found = machine.first_matching(|_| {
        asked += 1;
        true
    });
    assert_eq!(found, Some(config(3, 11, "/usr/bin/python3")));
    assert_eq!(asked, 1);
    assert_eq!(machine.ran, vec!["python", "python3"]);
}

#[test]
fn no_match_gives_nothing() {
    let mut machine = Machine {
        python: output(2, 7, "/usr/bin/python"),
        python3: output(3, 11, "/usr/bin/python3"),
        ran: Vec::new(),
    };
    assert_eq!(machine.first_matching(|config| config.version.major == 4), None);
    assert_eq!(machine.ran, vec!["python", "python3"]);
    let mut machine =
        Machine { python: RunOutcome::NotFound, python3: RunOutcome::NotFound, ran: Vec::new() };
    assert_eq!(machine.first_matching(|_| true), None);
    assert_eq!(machine.all(), Vec::new());
}

#[test]
fn a_step_without_a_pending_candidate_changes_nothing() {
    let mut search = find_interpreters();
    search.finish();
    let over = search.clone();
    assert_eq!(
        find_interpreter_matching(&mut search, output(3, 11, "/usr/bin/python3"), |_| true),
        None
    );
    assert_eq!(search, over);
}
