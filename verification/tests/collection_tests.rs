use crusty_hooks::env_overlay::EnvOverlay;
use crusty_hooks::git::{get_root_directory_path, setup_hooks};
use crusty_hooks::hooks::{create_hook_files, is_on_skip_list, HOOK_FILE_TEMPLATE};
use crusty_hooks::text_map::TextMap;
use std::cell::RefCell;
use std::collections::HashMap;

#[test]
fn text_map_starts_empty() {
    let map: TextMap<u32> = TextMap::new();
    assert!(map.is_empty());
    assert!(!map.contains_key("a"));
    assert_eq!(map.get("a"), None);
    assert!(map.entries().is_empty());
}

#[test]
fn text_map_insert_replaces_the_value_of_a_key() {
    let mut map: TextMap<u32> = TextMap::new();
    map.insert(String::from("a"), 1);
    map.insert(String::from("b"), 2);
    map.insert(String::from("a"), 3);
    assert!(!map.is_empty());
    assert_eq!(map.get("a"), Some(&3));
    assert_eq!(map.get("b"), Some(&2));
    assert_eq!(map.get("c"), None);
    assert_eq!(
        *map.entries(),
        vec![(String::from("a"), 3), (String::from("b"), 2)]
    );
}

#[test]
fn text_map_remove_takes_the_key_out() {
    let mut map: TextMap<u32> = TextMap::new();
    map.insert(String::from("a"), 1);
    map.insert(String::from("b"), 2);
    map.insert(String::from("c"), 3);
    assert_eq!(map.remove("b"), Some(2));
    assert_eq!(map.remove("b"), None);
    assert!(!map.contains_key("b"));
    assert!(map.contains_key("a"));
    assert!(map.contains_key("c"));
    assert_eq!(
        *map.entries(),
        vec![(String::from("a"), 1), (String::from("c"), 3)]
    );
    assert_eq!(map.remove("a"), Some(1));
    assert_eq!(map.remove("c"), Some(3));
    assert!(map.is_empty());
}

#[test]
fn env_overlay_sets_and_gets() {
    let mut overlay = EnvOverlay::new();
    assert!(overlay.is_empty());
    overlay.set(String::from("A"), String::from("1"));
    overlay.set(String::from("A"), String::from("2"));
    overlay.set(String::from("B"), String::from(""));
    assert!(!overlay.is_empty());
    assert_eq!(overlay.get("A"), Some(&String::from("2")));
    assert_eq!(overlay.get("B"), Some(&String::from("")));
    assert_eq!(overlay.get("C"), None);
    assert_eq!(
        *overlay.pairs(),
        vec![
            (String::from("A"), String::from("2")),
            (String::from("B"), String::from(""))
        ]
    );
}

#[test]
fn skip_list_is_searched_by_text() {
    let skip = vec!["pre-push", "update"];
    assert!(is_on_skip_list(&skip, "pre-push"));
    assert!(is_on_skip_list(&skip, "update"));
    assert!(!is_on_skip_list(&skip, "pre-commit"));
    assert!(!is_on_skip_list(&vec![], "pre-commit"));
}

#[test]
fn hook_files_are_written_as_executables() {
    let written: RefCell<Vec<(String, String, bool)>> = RefCell::new(Vec::new());
    let write_file = |path: &str, contents: &str, executable: bool| {
        written
            .borrow_mut()
            .push((path.to_string(), contents.to_string(), executable));
        Ok(())
    };
    let result = create_hook_files(&write_file, "/repo", ".git/hooks", &vec![]);
    assert_eq!(result, Ok(()));
    let written = written.borrow();
    assert_eq!(written.len(), 19);
    assert_eq!(written[0].0, "/repo/.git/hooks/applypatch-msg");
    assert_eq!(written[18].0, "/repo/.git/hooks/sendemail-validate");
    assert!(written
        .iter()
        .all(|(_, contents, executable)| contents == HOOK_FILE_TEMPLATE && *executable));
}

#[test]
fn hook_files_on_the_skip_list_are_left_out() {
    let written: RefCell<Vec<String>> = RefCell::new(Vec::new());
    let write_file = |path: &str, _contents: &str, _executable: bool| {
        written.borrow_mut().push(path.to_string());
        Ok(())
    };
    let skip = vec!["applypatch-msg", "pre-commit", "no-such-hook"];
    let result = create_hook_files(&write_file, "/repo", ".git/hooks", &skip);
    assert_eq!(result, Ok(()));
    let written = written.borrow();
    assert_eq!(written.len(), 17);
    assert_eq!(written[0], "/repo/.git/hooks/pre-applypatch");
    assert!(!written.contains(&String::from("/repo/.git/hooks/pre-commit")));
}

#[test]
fn hook_installation_ends_at_the_first_failing_write() {
    let written: RefCell<Vec<String>> = RefCell::new(Vec::new());
    let write_file = |path: &str, _contents: &str, _executable: bool| {
        written.borrow_mut().push(path.to_string());
        if path.ends_with("/post-applypatch") {
            Err(String::from("read-only"))
        } else {
            Ok(())
        }
    };
    let result = create_hook_files(&write_file, "/repo", ".git/hooks", &vec![]);
    assert_eq!(
        result,
        Err(String::from(
            "Fatal error encountered while trying to create git hook files"
        ))
    );
    assert_eq!(written.borrow().len(), 3);
}

#[test]
fn hook_template_hands_over_to_the_program() {
    assert!(HOOK_FILE_TEMPLATE.starts_with("#!/bin/sh\n"));
    assert!(HOOK_FILE_TEMPLATE.contains("crusty-hooks run --hook \"${hookName}\""));
}

#[test]
fn root_directory_is_asked_of_git() {
    let run_command = |cmd: &str,
                       dir: Option<&str>,
                       stream_io: bool,
                       env: Option<&HashMap<String, String>>| {
        assert_eq!(cmd, "git rev-parse --show-toplevel");
        assert_eq!(dir, Some("sub"));
        assert!(!stream_io);
        assert!(env.is_none());
        Ok(Some(String::from("/repo")))
    };
    assert_eq!(
        get_root_directory_path(&run_command, Some("sub")),
        Ok(Some(String::from("/repo")))
    );
}

#[test]
fn setup_fails_when_git_names_no_hooks_directory() {
    let run_command = |_cmd: &str,
                       _dir: Option<&str>,
                       _stream_io: bool,
                       _env: Option<&HashMap<String, String>>| Ok(None);
    let write_file = |_path: &str, _contents: &str, _executable: bool| {
        panic!("nothing is to be written");
    };
    assert_eq!(
        setup_hooks(&run_command, &write_file, "/repo", &vec![]),
        Err(String::from("Failure determining git hooks directory"))
    );
}

#[test]
fn skipped_hooks_are_never_handed_to_the_writer() {
    let written: RefCell<usize> = RefCell::new(0);
    let write_file = |path: &str, _contents: &str, executable: bool| {
        if path.ends_with("/pre-commit") || path.ends_with("/post-merge") {
            panic!("a hook on the skip list is not to be written");
        }
        assert!(executable);
        *written.borrow_mut() += 1;
        Ok(())
    };
    let skip = vec!["post-merge", "pre-commit"];
    let result = create_hook_files(&write_file, "/repo", ".git/hooks", &skip);
    assert_eq!(result, Ok(()));
    assert_eq!(*written.borrow(), 17);
}

#[test]
fn nothing_is_written_when_git_names_no_hooks_directory() {
    let run_command = |_cmd: &str,
                       _dir: Option<&str>,
                       _stream_io: bool,
                       _env: Option<&HashMap<String, String>>| Err(None);
    let write_file = |_path: &str, _contents: &str, _executable: bool| {
        panic!("nothing is to be written");
    };
    assert_eq!(
        setup_hooks(&run_command, &write_file, "/repo", &vec![]),
        Err(String::from("Failure determining git hooks directory"))
    );
}
