use crusty_hooks::command::parse_env_and_command;
use crusty_hooks::task::{diagnostics, judge, plan_invocation, plan_task, Outcome};
use crusty_hooks::text::{decimal_text, join_path, same_text, signed_decimal_text};

#[test]
fn plan_takes_the_first_argument_as_the_program() {
    let invocation = plan_task("RUST_LOG=debug cargo test --all").unwrap();
    assert_eq!(invocation.program, "cargo");
    assert_eq!(
        invocation.args,
        vec![String::from("test"), String::from("--all")]
    );
    assert_eq!(
        *invocation.env.pairs(),
        vec![(String::from("RUST_LOG"), String::from("debug"))]
    );
}

#[test]
fn plan_of_a_lone_program_has_no_arguments() {
    let invocation = plan_task("true").unwrap();
    assert_eq!(invocation.program, "true");
    assert!(invocation.args.is_empty());
    assert!(invocation.env.is_empty());
}

#[test]
fn plan_of_a_string_without_a_command_is_an_error() {
    match plan_task("A=1") {
        Ok(_) => panic!("a command string without a program has no plan"),
        Err(e) => assert_eq!(e, "Command `A=1` names no program to run"),
    }
    match plan_task("") {
        Ok(_) => panic!("an empty command string has no plan"),
        Err(e) => assert_eq!(e, "Command `` names no program to run"),
    }
    match plan_task("echo 'open") {
        Ok(_) => panic!("an untokenizable command string has no plan"),
        Err(e) => assert_eq!(e, "Command `echo 'open` names no program to run"),
    }
}

#[test]
fn plan_invocation_works_on_parsed_parts() {
    let parts = parse_env_and_command("A=1 prog x");
    let invocation = plan_invocation("shown", parts).unwrap();
    assert_eq!(invocation.program, "prog");
    assert_eq!(invocation.args, vec![String::from("x")]);

    let parts = parse_env_and_command("A=1");
    match plan_invocation("shown", parts) {
        Ok(_) => panic!("no program, no plan"),
        Err(e) => assert_eq!(e, "Command `shown` names no program to run"),
    }
}

#[test]
fn success_is_judged_ok() {
    assert_eq!(judge("cargo test", &Outcome::Success), Ok(()));
}

#[test]
fn failure_names_the_command_and_the_exit_code() {
    let outcome = Outcome::Failure {
        exit_code: Some(101),
        stdout: String::new(),
        stderr: String::new(),
    };
    assert_eq!(
        judge("cargo test", &outcome),
        Err(String::from(
            "Command `cargo test` failed with exit code Some(101)"
        ))
    );
}

#[test]
fn failure_without_a_code_says_none() {
    let outcome = Outcome::Failure {
        exit_code: None,
        stdout: String::new(),
        stderr: String::new(),
    };
    assert_eq!(
        judge("sleep 100", &outcome),
        Err(String::from("Command `sleep 100` failed with exit code None"))
    );
}

#[test]
fn failure_with_a_negative_code_keeps_the_sign() {
    let outcome = Outcome::Failure {
        exit_code: Some(-1),
        stdout: String::new(),
        stderr: String::new(),
    };
    assert_eq!(
        judge("x", &outcome),
        Err(String::from("Command `x` failed with exit code Some(-1)"))
    );
    let outcome = Outcome::Failure {
        exit_code: Some(i32::MIN),
        stdout: String::new(),
        stderr: String::new(),
    };
    assert_eq!(
        judge("x", &outcome),
        Err(format!("Command `x` failed with exit code {:?}", Some(i32::MIN)))
    );
}

#[test]
fn failure_message_matches_the_debug_form_of_the_code() {
    for code in [0, 1, 9, 10, 99, 100, 255, 256, 1000, i32::MAX, -7, -10, -128] {
        let outcome = Outcome::Failure {
            exit_code: Some(code),
            stdout: String::new(),
            stderr: String::new(),
        };
        assert_eq!(
            judge("c", &outcome),
            Err(format!("Command `c` failed with exit code {:?}", Some(code)))
        );
    }
}

#[test]
fn spawn_failure_fails_with_its_cause() {
    let outcome = Outcome::SpawnFailure {
        cause: String::from("No such file or directory (os error 2)"),
    };
    assert_eq!(
        judge("nope", &outcome),
        Err(String::from("No such file or directory (os error 2)"))
    );
}

#[test]
fn diagnostics_show_what_was_printed() {
    let outcome = Outcome::Failure {
        exit_code: Some(1),
        stdout: String::from("out"),
        stderr: String::from("err"),
    };
    assert_eq!(
        diagnostics(&outcome),
        vec![String::from("Stdout: out"), String::from("Stderr: err")]
    );
}

#[test]
fn diagnostics_leave_out_what_is_empty() {
    let outcome = Outcome::Failure {
        exit_code: Some(1),
        stdout: String::new(),
        stderr: String::from("err"),
    };
    assert_eq!(diagnostics(&outcome), vec![String::from("Stderr: err")]);
    let outcome = Outcome::Failure {
        exit_code: Some(1),
        stdout: String::from("out"),
        stderr: String::new(),
    };
    assert_eq!(diagnostics(&outcome), vec![String::from("Stdout: out")]);
    let outcome = Outcome::Failure {
        exit_code: None,
        stdout: String::new(),
        stderr: String::new(),
    };
    assert!(diagnostics(&outcome).is_empty());
}

#[test]
fn diagnostics_of_other_outcomes_are_empty() {
    assert!(diagnostics(&Outcome::Success).is_empty());
    assert!(diagnostics(&Outcome::SpawnFailure {
        cause: String::from("x")
    })
    .is_empty());
}

#[test]
fn decimal_text_writes_digits() {
    assert_eq!(decimal_text(0), "0");
    assert_eq!(decimal_text(7), "7");
    assert_eq!(decimal_text(10), "10");
    assert_eq!(decimal_text(1234567890), "1234567890");
    assert_eq!(decimal_text(u64::MAX), "18446744073709551615");
}

#[test]
fn signed_decimal_text_writes_the_sign() {
    assert_eq!(signed_decimal_text(0), "0");
    assert_eq!(signed_decimal_text(42), "42");
    assert_eq!(signed_decimal_text(-42), "-42");
    assert_eq!(signed_decimal_text(i32::MAX), "2147483647");
    assert_eq!(signed_decimal_text(i32::MIN), "-2147483648");
}

#[test]
fn join_path_puts_one_slash_between() {
    assert_eq!(join_path("/repo", "file"), "/repo/file");
    assert_eq!(join_path("", ""), "/");
    assert_eq!(join_path(".", ".crusty-hooks.toml"), "./.crusty-hooks.toml");
}

#[test]
fn same_text_compares_characters() {
    assert!(same_text("abc", "abc"));
    assert!(same_text("", ""));
    assert!(!same_text("abc", "abd"));
    assert!(!same_text("abc", "ab"));
}
