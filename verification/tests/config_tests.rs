use crusty_hooks::config::{
    create_config_file, create_default_config_file, find_config_file, get_config_file_contents,
    CONFIG_FILE_NAMES, CONFIG_FILE_TEMPLATE, DEFAULT_CONFIG_FILE_NAME,
    FATAL_ERROR_DURING_CONFIG_LOOKUP,
};
use crusty_hooks::{ConfigFile, NO_CONFIG_FILE_FOUND};
use std::cell::RefCell;
use std::collections::BTreeMap;

#[test]
fn candidate_names_begin_with_the_primary_name() {
    assert_eq!(DEFAULT_CONFIG_FILE_NAME, ".crusty-hooks.toml");
    assert_eq!(CONFIG_FILE_NAMES, [".crusty-hooks.toml", "crusty-hooks.toml"]);
    assert_eq!(NO_CONFIG_FILE_FOUND, "No config file found");
}

#[test]
fn template_holds_one_hook_with_one_command_and_a_logging_section() {
    assert_eq!(
        CONFIG_FILE_TEMPLATE,
        "[hooks]\npre-commit = [\n  [\"cargo test\"]\n]\n\n[logging]\nverbose = true\n"
    );
}

#[test]
fn find_returns_the_primary_file_first() {
    let probed: RefCell<Vec<String>> = RefCell::new(Vec::new());
    let file_exists = |path: &str| {
        probed.borrow_mut().push(path.to_string());
        Ok(true)
    };
    let found = find_config_file("/repo", &file_exists);
    assert_eq!(found, Ok(String::from("/repo/.crusty-hooks.toml")));
    assert_eq!(*probed.borrow(), vec![String::from("/repo/.crusty-hooks.toml")]);
}

#[test]
fn find_returns_the_alias_when_the_primary_is_absent() {
    let file_exists = |path: &str| Ok(path == "/repo/crusty-hooks.toml");
    let found = find_config_file("/repo", &file_exists);
    assert_eq!(found, Ok(String::from("/repo/crusty-hooks.toml")));
}

#[test]
fn find_returns_the_sentinel_when_nothing_exists() {
    let probed: RefCell<Vec<String>> = RefCell::new(Vec::new());
    let file_exists = |path: &str| {
        probed.borrow_mut().push(path.to_string());
        Ok(false)
    };
    let found = find_config_file("/repo", &file_exists);
    assert_eq!(found, Ok(String::from("No config file found")));
    assert_eq!(
        *probed.borrow(),
        vec![
            String::from("/repo/.crusty-hooks.toml"),
            String::from("/repo/crusty-hooks.toml")
        ]
    );
}

#[test]
fn find_fails_when_a_probe_fails() {
    let file_exists = |path: &str| {
        if path == "/repo/.crusty-hooks.toml" {
            Ok(false)
        } else {
            Err(())
        }
    };
    let found = find_config_file("/repo", &file_exists);
    assert_eq!(
        found,
        Err(String::from(
            "Fatal error encountered while looking for existing config"
        ))
    );
    assert_eq!(
        FATAL_ERROR_DURING_CONFIG_LOOKUP,
        "Fatal error encountered while looking for existing config"
    );
}

#[test]
fn create_writes_the_template_under_the_primary_name() {
    let written: RefCell<Vec<(String, String, bool)>> = RefCell::new(Vec::new());
    let write_file = |path: &str, contents: &str, executable: bool| {
        written
            .borrow_mut()
            .push((path.to_string(), contents.to_string(), executable));
        Ok(())
    };
    let file_exists = |_path: &str| Ok(false);
    let result = create_default_config_file(&write_file, &file_exists, "/repo");
    assert_eq!(result, Ok(()));
    assert_eq!(
        *written.borrow(),
        vec![(
            String::from("/repo/.crusty-hooks.toml"),
            String::from(CONFIG_FILE_TEMPLATE),
            false
        )]
    );
}

#[test]
fn create_uses_a_desired_candidate_name() {
    let written: RefCell<Vec<String>> = RefCell::new(Vec::new());
    let write_file = |path: &str, _contents: &str, _executable: bool| {
        written.borrow_mut().push(path.to_string());
        Ok(())
    };
    let file_exists = |_path: &str| Ok(false);
    let result = create_config_file(&write_file, &file_exists, "/repo", "crusty-hooks.toml");
    assert_eq!(result, Ok(()));
    assert_eq!(*written.borrow(), vec![String::from("/repo/crusty-hooks.toml")]);
}

#[test]
fn create_falls_back_to_the_primary_name() {
    let written: RefCell<Vec<String>> = RefCell::new(Vec::new());
    let write_file = |path: &str, _contents: &str, _executable: bool| {
        written.borrow_mut().push(path.to_string());
        Ok(())
    };
    let file_exists = |_path: &str| Ok(false);
    let result = create_config_file(&write_file, &file_exists, "/repo", "hooks.json");
    assert_eq!(result, Ok(()));
    assert_eq!(*written.borrow(), vec![String::from("/repo/.crusty-hooks.toml")]);
}

#[test]
fn create_writes_nothing_when_a_candidate_exists() {
    let write_file = |_path: &str, _contents: &str, _executable: bool| {
        panic!("nothing is to be written");
    };
    let file_exists = |path: &str| Ok(path == "/repo/crusty-hooks.toml");
    let result = create_default_config_file(&write_file, &file_exists, "/repo");
    assert_eq!(result, Ok(()));
}

#[test]
fn create_fails_when_the_lookup_fails() {
    let write_file = |_path: &str, _contents: &str, _executable: bool| {
        panic!("nothing is to be written");
    };
    let file_exists = |_path: &str| Err(());
    let result = create_default_config_file(&write_file, &file_exists, "/repo");
    assert_eq!(
        result,
        Err(String::from(
            "Fatal error encountered while looking for existing config"
        ))
    );
}

#[test]
fn create_fails_when_the_write_fails() {
    let write_file = |_path: &str, _contents: &str, _executable: bool| Err(String::from("disk"));
    let file_exists = |_path: &str| Ok(false);
    let result = create_default_config_file(&write_file, &file_exists, "/repo");
    assert_eq!(result, Err(String::from("Failed to create config file")));
}

#[test]
fn creating_the_default_twice_writes_one_file_once() {
    let files: RefCell<BTreeMap<String, String>> = RefCell::new(BTreeMap::new());
    let writes: RefCell<usize> = RefCell::new(0);
    let write_file = |path: &str, contents: &str, _executable: bool| {
        *writes.borrow_mut() += 1;
        files
            .borrow_mut()
            .insert(path.to_string(), contents.to_string());
        Ok(())
    };
    let file_exists = |path: &str| Ok(files.borrow().contains_key(path));

    assert_eq!(
        create_default_config_file(&write_file, &file_exists, "/repo"),
        Ok(())
    );
    let after_first = files.borrow().clone();
    assert_eq!(after_first.len(), 1);
    assert_eq!(
        after_first.get("/repo/.crusty-hooks.toml"),
        Some(&String::from(CONFIG_FILE_TEMPLATE))
    );

    assert_eq!(
        create_default_config_file(&write_file, &file_exists, "/repo"),
        Ok(())
    );
    assert_eq!(*files.borrow(), after_first);
    assert_eq!(*writes.borrow(), 1);
}

#[test]
fn contents_are_those_of_the_file_that_was_found() {
    let read_file = |path: &str| {
        if path == "/repo/crusty-hooks.toml" {
            Ok(String::from("[hooks]\n"))
        } else {
            Err(())
        }
    };
    let file_exists = |path: &str| Ok(path == "/repo/crusty-hooks.toml");
    let contents = get_config_file_contents(&read_file, &file_exists, "/repo");
    assert_eq!(contents, Ok(String::from("[hooks]\n")));
}

#[test]
fn contents_fail_with_no_config_found_when_nothing_exists() {
    let read_file = |_path: &str| panic!("nothing is to be read");
    let file_exists = |_path: &str| Ok(false);
    let contents = get_config_file_contents(&read_file, &file_exists, "/repo");
    assert_eq!(contents, Err(String::from("No config file found")));
}

#[test]
fn contents_fail_with_the_lookup_error_when_a_probe_fails() {
    let read_file = |_path: &str| panic!("nothing is to be read");
    let file_exists = |_path: &str| Err(());
    let contents = get_config_file_contents(&read_file, &file_exists, "/repo");
    assert_eq!(
        contents,
        Err(String::from(
            "Fatal error encountered while looking for existing config"
        ))
    );
}

#[test]
fn contents_fail_when_the_file_cannot_be_read() {
    let read_file = |_path: &str| Err(());
    let file_exists = |_path: &str| Ok(true);
    let contents = get_config_file_contents(&read_file, &file_exists, "/repo");
    assert_eq!(contents, Err(String::from("Failure reading file")));
}

#[test]
fn config_file_keeps_the_groups_of_each_hook() {
    let mut config = ConfigFile::new();
    config.configure(
        String::from("pre-commit"),
        vec![vec![String::from("cargo fmt"), String::from("cargo test")]],
    );
    config.configure(String::from("pre-push"), vec![]);
    config.configure(
        String::from("pre-commit"),
        vec![vec![String::from("cargo clippy")]],
    );
    assert_eq!(
        config.hooks.get("pre-commit"),
        Some(&vec![vec![String::from("cargo clippy")]])
    );
    assert_eq!(config.take_hook("commit-msg"), None);
    assert_eq!(
        config.take_hook("pre-commit"),
        Some(vec![vec![String::from("cargo clippy")]])
    );
    assert_eq!(config.take_hook("pre-commit"), None);
    assert_eq!(config.take_hook("pre-push"), Some(vec![]));
    assert!(config.hooks.is_empty());
}
