use crusty_hooks::init;
use crusty_hooks::init_directory::init_directory;
use std::cell::RefCell;
use std::collections::HashMap;

#[allow(clippy::type_complexity)]
fn build_simple_command_runner(
    outcome: Result<Option<String>, Option<String>>,
) -> Box<
    dyn Fn(
        &str,
        Option<&str>,
        bool,
        Option<&HashMap<String, String>>,
    ) -> Result<Option<String>, Option<String>>,
> {
    Box::new(
        move |_: &str, _: Option<&str>, _: bool, _: Option<&HashMap<String, String>>| {
            outcome.to_owned()
        },
    )
}

#[test]
fn returns_error_when_root_directory_detect_fails() {
    let exp_err = "Failure determining git repo root directory";
    let run_command = build_simple_command_runner(Err(Some(String::from(exp_err))));
    let write_file = |_file_path: &str, _contents: &str, _x: bool| {
        panic!("Should not get here");
    };
    let file_exists = |_path: &str| panic!("Should not get here");
    let result = init(run_command, write_file, file_exists, vec![]);
    assert_eq!(result, Err(String::from(exp_err)));
}

#[test]
fn should_return_error_when_hook_creation_fails() {
    let run_command = build_simple_command_runner(Ok(Some(String::from(""))));
    let write_file = |_file_path: &str, _contents: &str, _x: bool| Err(String::from(""));
    let file_exists = |_path: &str| panic!("Should not get here");
    let result = init(run_command, write_file, file_exists, vec![]);
    assert_eq!(result, Err(String::from("Unable to create git hooks")));
}

#[test]
fn should_return_error_when_config_creation_fails() {
    let run_command = build_simple_command_runner(Ok(Some(String::from(""))));
    let write_file = |_file_path: &str, _contents: &str, _x: bool| Ok(());
    let file_exists = |_path: &str| Err(());
    let result = init(run_command, write_file, file_exists, vec![]);
    assert_eq!(result, Err(String::from("Unable to create config file")));
}

#[test]
fn should_return_ok_on_success() {
    let run_command = build_simple_command_runner(Ok(Some(String::from(""))));
    let write_file = |_file_path: &str, _contents: &str, _x: bool| Ok(());
    let file_exists = |_path: &str| Ok(false);
    let result = init(run_command, write_file, file_exists, vec![]);
    assert_eq!(result, Ok(()));
}

#[test]
fn invokes_init_directory_with_cwd() {
    let run_command = |_cmd: &str,
                       dir: Option<&str>,
                       _stream_io: bool,
                       _env: Option<&HashMap<String, String>>| {
        if let Some(target_dir) = dir {
            if target_dir != "." {
                return Err(None);
            }
            Ok(Some(String::from("")))
        } else {
            Ok(Some(String::from(".")))
        }
    };
    let write_file = |_file_path: &str, _contents: &str, _x: bool| Ok(());
    let file_exists = |_path: &str| Ok(false);
    let result = init(run_command, write_file, file_exists, vec![]);
    assert_eq!(result, Ok(()));
}

#[test]
fn init_fails_when_root_answer_names_no_directory() {
    let run_command = build_simple_command_runner(Ok(None));
    let write_file = |_file_path: &str, _contents: &str, _x: bool| {
        panic!("Should not get here");
    };
    let file_exists = |_path: &str| panic!("Should not get here");
    let result = init(run_command, write_file, file_exists, vec![]);
    assert_eq!(
        result,
        Err(String::from("Failure determining git repo root directory"))
    );
}

#[test]
fn init_fails_when_hooks_directory_is_unknown() {
    let run_command = |cmd: &str,
                       _dir: Option<&str>,
                       _stream_io: bool,
                       _env: Option<&HashMap<String, String>>| {
        if cmd == "git rev-parse --show-toplevel" {
            Ok(Some(String::from("/repo")))
        } else {
            Err(Some(String::from("not a repository")))
        }
    };
    let write_file = |_file_path: &str, _contents: &str, _x: bool| {
        panic!("Should not get here");
    };
    let file_exists = |_path: &str| panic!("Should not get here");
    let result = init(run_command, write_file, file_exists, vec![]);
    assert_eq!(result, Err(String::from("Unable to create git hooks")));
}

#[test]
fn init_writes_every_hook_and_the_default_config() {
    let written: RefCell<Vec<(String, bool)>> = RefCell::new(Vec::new());
    let commands: RefCell<Vec<(String, Option<String>)>> = RefCell::new(Vec::new());
    let run_command = |cmd: &str,
                       dir: Option<&str>,
                       stream_io: bool,
                       env: Option<&HashMap<String, String>>| {
        assert!(!stream_io);
        assert!(env.is_none());
        commands
            .borrow_mut()
            .push((cmd.to_string(), dir.map(|d| d.to_string())));
        if cmd == "git rev-parse --show-toplevel" {
            Ok(Some(String::from("/repo")))
        } else {
            Ok(Some(String::from(".git/hooks")))
        }
    };
    let write_file = |file_path: &str, _contents: &str, executable: bool| {
        written.borrow_mut().push((file_path.to_string(), executable));
        Ok(())
    };
    let file_exists = |_path: &str| Ok(false);
    let result = init(run_command, write_file, file_exists, vec!["pre-push", "update"]);
    assert_eq!(result, Ok(()));
    assert_eq!(
        *commands.borrow(),
        vec![
            (String::from("git rev-parse --show-toplevel"), None),
            (
                String::from("git rev-parse --git-path hooks"),
                Some(String::from("/repo"))
            ),
        ]
    );
    let written = written.borrow();
    assert_eq!(written.len(), 18);
    assert_eq!(
        written[0],
        (String::from("/repo/.git/hooks/applypatch-msg"), true)
    );
    assert_eq!(
        written[3],
        (String::from("/repo/.git/hooks/pre-commit"), true)
    );
    assert!(!written.iter().any(|(p, _)| p.ends_with("/pre-push")));
    assert!(!written.iter().any(|(p, _)| p.ends_with("/update")));
    assert_eq!(
        written[17],
        (String::from("/repo/.crusty-hooks.toml"), false)
    );
}

#[test]
fn init_directory_hands_the_target_directory_to_git() {
    let seen: RefCell<Vec<Option<String>>> = RefCell::new(Vec::new());
    let run_command = |_cmd: &str,
                       dir: Option<&str>,
                       _stream_io: bool,
                       _env: Option<&HashMap<String, String>>| {
        seen.borrow_mut().push(dir.map(|d| d.to_string()));
        Ok(Some(String::from("/repo")))
    };
    let write_file = |_file_path: &str, _contents: &str, _x: bool| Ok(());
    let file_exists = |_path: &str| Ok(true);
    let result = init_directory(
        &run_command,
        &write_file,
        &file_exists,
        Some("/repo/target"),
        vec![],
    );
    assert_eq!(result, Ok(()));
    assert_eq!(
        *seen.borrow(),
        vec![Some(String::from("/repo/target")), Some(String::from("/repo"))]
    );
}

#[test]
fn init_leaves_an_existing_config_unwritten() {
    let scripts: RefCell<usize> = RefCell::new(0);
    let run_command = build_simple_command_runner(Ok(Some(String::from("/repo"))));
    let write_file = |_file_path: &str, _contents: &str, executable: bool| {
        if !executable {
            panic!("the configuration file that exists is not to be written");
        }
        *scripts.borrow_mut() += 1;
        Ok(())
    };
    let file_exists = |path: &str| Ok(path == "/repo/crusty-hooks.toml");
    let result = init(run_command, write_file, file_exists, vec![]);
    assert_eq!(result, Ok(()));
    assert_eq!(*scripts.borrow(), 19);
}

#[test]
fn init_probes_the_second_candidate_only_after_the_first_is_absent() {
    let probed: RefCell<Vec<String>> = RefCell::new(Vec::new());
    let run_command = build_simple_command_runner(Ok(Some(String::from("/repo"))));
    let write_file = |_file_path: &str, _contents: &str, executable: bool| {
        assert!(executable);
        Ok(())
    };
    let file_exists = |path: &str| {
        probed.borrow_mut().push(path.to_string());
        if path == "/repo/.crusty-hooks.toml" {
            Ok(true)
        } else {
            panic!("no candidate behind the one that exists is to be probed");
        }
    };
    let result = init(run_command, write_file, file_exists, vec![]);
    assert_eq!(result, Ok(()));
    assert_eq!(*probed.borrow(), vec![String::from("/repo/.crusty-hooks.toml")]);
}
