//! What is asked of git: the root directory of the repository and the
//! directory of its hook scripts.

use crate::capability::{can_run_at, dir_view, may_run};
use crate::hooks::{create_hook_files, hook_files_allowed, hook_files_outcome};
use std::collections::HashMap;
use vstd::prelude::*;
use vstd::string::*;

verus! {

/// The command that prints the root directory of the repository.
pub const GIT_REPO_ROOT_COMMAND: &'static str = "git rev-parse --show-toplevel";

/// The command that prints the directory of the hook scripts.
pub const GIT_HOOKS_DIRECTORY_COMMAND: &'static str = "git rev-parse --git-path hooks";

/// The error of a set-up in which git named no directory for the hook scripts.
pub const HOOKS_DIRECTORY_FAILURE: &'static str = "Failure determining git hooks directory";

/// Whether the command runner's answer names a directory.
pub open spec fn names_directory(answer: Result<Option<String>, Option<String>>) -> bool {
    answer matches Ok(Some(_))
}

/// Asks git, through the command runner, for the root directory of the
/// repository that holds `target_directory` (the current directory where
/// that is `None`), and hands back the runner's answer.
pub fn get_root_directory_path<F>(run_command: &F, target_directory: Option<&str>) -> (r: Result<
    Option<String>,
    Option<String>,
>)
    where
        F: Fn(&str, Option<&str>, bool, Option<&HashMap<String, String>>) -> Result<
            Option<String>,
            Option<String>,
        >,

    requires
        can_run_at(*run_command, GIT_REPO_ROOT_COMMAND@, dir_view(target_directory)),
    ensures
        may_run(
            *run_command,
            GIT_REPO_ROOT_COMMAND@,
            dir_view(target_directory),
            r,
        ),
{
    run_command(GIT_REPO_ROOT_COMMAND, target_directory, false, None)
}

/// What setting up the hooks under `root` asks of the two capabilities: of
/// the command runner that it can be asked for the directory of the hook
/// scripts, and of the writer what the installation asks in each directory
/// that the runner may name. Where it names none, nothing is asked of the
/// writer.
pub open spec fn setup_allowed<
    F: Fn(&str, Option<&str>, bool, Option<&HashMap<String, String>>) -> Result<
        Option<String>,
        Option<String>,
    >,
    G: Fn(&str, &str, bool) -> Result<(), String>,
>(run_command: F, write_file: G, root: Seq<char>, skip_list: Seq<&str>) -> bool {
    &&& can_run_at(run_command, GIT_HOOKS_DIRECTORY_COMMAND@, Some(root))
    &&& forall|directory: String| #[trigger]
        may_run(run_command, GIT_HOOKS_DIRECTORY_COMMAND@, Some(root), Ok(Some(directory)))
            ==> hook_files_allowed(write_file, root, directory@, skip_list)
}

/// What setting up the hooks under `root` may return, given what the two
/// capabilities may answer.
pub open spec fn setup_outcome<
    F: Fn(&str, Option<&str>, bool, Option<&HashMap<String, String>>) -> Result<
        Option<String>,
        Option<String>,
    >,
    G: Fn(&str, &str, bool) -> Result<(), String>,
>(run_command: F, write_file: G, root: Seq<char>, skip_list: Seq<&str>, r: Result<(), String>) -> bool {
    ||| r matches Err(e) && e@ == HOOKS_DIRECTORY_FAILURE@ && exists|
        answer: Result<Option<String>, Option<String>>,
    |
        !names_directory(answer) && may_run(
            run_command,
            GIT_HOOKS_DIRECTORY_COMMAND@,
            Some(root),
            answer,
        )
    ||| exists|directory: String|
        may_run(run_command, GIT_HOOKS_DIRECTORY_COMMAND@, Some(root), Ok(Some(directory)))
            && hook_files_outcome(write_file, root, directory@, skip_list, r)
}

/// Asks git for the directory of the hook scripts of the repository at
/// `root_directory_path` and installs the hook scripts there.
pub fn setup_hooks<F, G>(
    run_command: &F,
    write_file: &G,
    root_directory_path: &str,
    hook_file_skip_list: &Vec<&str>,
) -> (r: Result<(), String>)
    where
        F: Fn(&str, Option<&str>, bool, Option<&HashMap<String, String>>) -> Result<
            Option<String>,
            Option<String>,
        >,
        G: Fn(&str, &str, bool) -> Result<(), String>,

    requires
        setup_allowed(*run_command, *write_file, root_directory_path@, hook_file_skip_list@),
    ensures
        setup_outcome(
            *run_command,
            *write_file,
            root_directory_path@,
            hook_file_skip_list@,
            r,
        ),
{
    let answer = run_command(GIT_HOOKS_DIRECTORY_COMMAND, Some(root_directory_path), false, None);
    assert(may_run(
        *run_command,
        GIT_HOOKS_DIRECTORY_COMMAND@,
        Some(root_directory_path@),
        answer,
    ));
    let hooks_directory = match answer {
        Ok(Some(path)) => path,
        _ => {
            assert(!names_directory(answer));
            return Err(String::from_str(HOOKS_DIRECTORY_FAILURE));
        },
    };
    create_hook_files(
        write_file,
        root_directory_path,
        hooks_directory.as_str(),
        hook_file_skip_list,
    )
}

} // verus!
