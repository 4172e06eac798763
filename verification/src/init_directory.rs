//! The initialization of a repository.

use crate::capability::{answers_for, can_run_at, dir_view, may_run};
use crate::config::{
    create_default_config_file, creation_allowed, creation_outcome, holds_config,
    law_existing_config_is_not_written, lookup_allowed, DEFAULT_CONFIG_FILE_NAME,
};
use crate::git::{
    get_root_directory_path, names_directory, setup_allowed, setup_hooks, setup_outcome,
    GIT_REPO_ROOT_COMMAND,
};
use std::collections::HashMap;
use vstd::prelude::*;
use vstd::string::*;

verus! {

/// The error of an initialization or a run in which git named no root directory.
pub const ROOT_DIRECTORY_FAILURE: &'static str = "Failure determining git repo root directory";

/// The error of an initialization in which the hooks could not be set up.
pub const HOOK_SETUP_FAILURE: &'static str = "Unable to create git hooks";

/// The error of an initialization in which the default configuration file
/// could not be created.
pub const CONFIG_SETUP_FAILURE: &'static str = "Unable to create config file";

/// The set-up of the hooks under `root` may succeed.
pub open spec fn setup_may_succeed<
    F: Fn(&str, Option<&str>, bool, Option<&HashMap<String, String>>) -> Result<
        Option<String>,
        Option<String>,
    >,
    G: Fn(&str, &str, bool) -> Result<(), String>,
>(run_command: F, write_file: G, root: Seq<char>, skip_list: Seq<&str>) -> bool {
    exists|installed: Result<(), String>|
        installed is Ok && setup_outcome(run_command, write_file, root, skip_list, installed)
}

/// What an initialization asks of the capabilities once the root directory
/// `root` is known: what the set-up of the hooks asks, and, where that
/// set-up may succeed, what the creation of the default configuration file
/// asks. Where the set-up cannot succeed, nothing is asked of the existence
/// check, and nothing of the writer for the configuration file.
pub open spec fn hooks_step_allowed<
    F: Fn(&str, Option<&str>, bool, Option<&HashMap<String, String>>) -> Result<
        Option<String>,
        Option<String>,
    >,
    G: Fn(&str, &str, bool) -> Result<(), String>,
    H: Fn(&str) -> Result<bool, ()>,
>(run_command: F, write_file: G, file_exists: H, root: Seq<char>, skip_list: Seq<&str>) -> bool {
    &&& setup_allowed(run_command, write_file, root, skip_list)
    &&& setup_may_succeed(run_command, write_file, root, skip_list) ==> creation_allowed(
        write_file,
        file_exists,
        root,
        DEFAULT_CONFIG_FILE_NAME@,
    )
}

/// What an initialization asks of the capabilities: of the command runner
/// that it can be asked for the root directory, and, for each root
/// directory that it may name, what the later steps ask. Where it names
/// none, nothing is asked of the writer and of the existence check.
pub open spec fn init_allowed<
    F: Fn(&str, Option<&str>, bool, Option<&HashMap<String, String>>) -> Result<
        Option<String>,
        Option<String>,
    >,
    G: Fn(&str, &str, bool) -> Result<(), String>,
    H: Fn(&str) -> Result<bool, ()>,
>(
    run_command: F,
    write_file: G,
    file_exists: H,
    target_directory: Option<Seq<char>>,
    skip_list: Seq<&str>,
) -> bool {
    &&& can_run_at(run_command, GIT_REPO_ROOT_COMMAND@, target_directory)
    &&& forall|root: String| #[trigger]
        may_run(run_command, GIT_REPO_ROOT_COMMAND@, target_directory, Ok(Some(root)))
            ==> hooks_step_allowed(run_command, write_file, file_exists, root@, skip_list)
}

/// What the last step of an initialization under `root` may return: the
/// default configuration file is created, or the step fails.
pub open spec fn config_step_outcome<
    G: Fn(&str, &str, bool) -> Result<(), String>,
    H: Fn(&str) -> Result<bool, ()>,
>(write_file: G, file_exists: H, root: Seq<char>, r: Result<(), String>) -> bool {
    match r {
        Ok(_) => exists|created: Result<(), String>|
            created is Ok && creation_outcome(
                write_file,
                file_exists,
                root,
                DEFAULT_CONFIG_FILE_NAME@,
                created,
            ),
        Err(e) => e@ == CONFIG_SETUP_FAILURE@ && exists|created: Result<(), String>|
            created is Err && creation_outcome(
                write_file,
                file_exists,
                root,
                DEFAULT_CONFIG_FILE_NAME@,
                created,
            ),
    }
}

/// What an initialization may return once the root directory `root` is
/// known: the hooks are set up and the last step follows, or the set-up
/// fails.
pub open spec fn hooks_step_outcome<
    F: Fn(&str, Option<&str>, bool, Option<&HashMap<String, String>>) -> Result<
        Option<String>,
        Option<String>,
    >,
    G: Fn(&str, &str, bool) -> Result<(), String>,
    H: Fn(&str) -> Result<bool, ()>,
>(
    run_command: F,
    write_file: G,
    file_exists: H,
    root: Seq<char>,
    skip_list: Seq<&str>,
    r: Result<(), String>,
) -> bool {
    ||| r matches Err(e) && e@ == HOOK_SETUP_FAILURE@ && exists|installed: Result<(), String>|
        installed is Err && setup_outcome(run_command, write_file, root, skip_list, installed)
    ||| setup_may_succeed(run_command, write_file, root, skip_list) && config_step_outcome(
        write_file,
        file_exists,
        root,
        r,
    )
}

/// What an initialization may return, given what the three capabilities
/// may answer: the root directory is found and the later steps follow, or
/// it fails because git names no root directory.
pub open spec fn init_outcome<
    F: Fn(&str, Option<&str>, bool, Option<&HashMap<String, String>>) -> Result<
        Option<String>,
        Option<String>,
    >,
    G: Fn(&str, &str, bool) -> Result<(), String>,
    H: Fn(&str) -> Result<bool, ()>,
>(
    run_command: F,
    write_file: G,
    file_exists: H,
    target_directory: Option<Seq<char>>,
    skip_list: Seq<&str>,
    r: Result<(), String>,
) -> bool {
    ||| r matches Err(e) && e@ == ROOT_DIRECTORY_FAILURE@ && exists|
        answer: Result<Option<String>, Option<String>>,
    |
        !names_directory(answer) && may_run(
            run_command,
            GIT_REPO_ROOT_COMMAND@,
            target_directory,
            answer,
        )
    ||| exists|root: String|
        may_run(run_command, GIT_REPO_ROOT_COMMAND@, target_directory, Ok(Some(root)))
            && hooks_step_outcome(run_command, write_file, file_exists, root@, skip_list, r)
}

/// Initializes the repository that holds `target_directory`: finds its
/// root directory, installs the hook scripts but for those on the skip
/// list, and creates the default configuration file unless one exists.
/// The first step that fails ends the initialization with its own error,
/// and no capability is called for a later step.
pub fn init_directory<F, G, H>(
    run_command: &F,
    write_file: &G,
    file_exists: &H,
    target_directory: Option<&str>,
    hook_file_skip_list: Vec<&str>,
) -> (r: Result<(), String>)
    where
        F: Fn(&str, Option<&str>, bool, Option<&HashMap<String, String>>) -> Result<
            Option<String>,
            Option<String>,
        >,
        G: Fn(&str, &str, bool) -> Result<(), String>,
        H: Fn(&str) -> Result<bool, ()>,

    requires
        init_allowed(
            *run_command,
            *write_file,
            *file_exists,
            dir_view(target_directory),
            hook_file_skip_list@,
        ),
    ensures
        init_outcome(
            *run_command,
            *write_file,
            *file_exists,
            dir_view(target_directory),
            hook_file_skip_list@,
            r,
        ),
{
    let answer = get_root_directory_path(run_command, target_directory);
    let root_directory_path = match answer {
        Ok(Some(path)) => path,
        _ => {
            assert(!names_directory(answer));
            return Err(String::from_str(ROOT_DIRECTORY_FAILURE));
        },
    };
    let installed = setup_hooks(
        run_command,
        write_file,
        root_directory_path.as_str(),
        &hook_file_skip_list,
    );
    if installed.is_err() {
        let r = Err(String::from_str(HOOK_SETUP_FAILURE));
        assert(hooks_step_outcome(
            *run_command,
            *write_file,
            *file_exists,
            root_directory_path@,
            hook_file_skip_list@,
            r,
        ));
        return r;
    }
    let created = create_default_config_file(write_file, file_exists, root_directory_path.as_str());
    let r = if created.is_err() {
        Err(String::from_str(CONFIG_SETUP_FAILURE))
    } else {
        Ok(())
    };
    assert(config_step_outcome(*write_file, *file_exists, root_directory_path@, r));
    assert(hooks_step_outcome(
        *run_command,
        *write_file,
        *file_exists,
        root_directory_path@,
        hook_file_skip_list@,
        r,
    ));
    r
}

/// Where git names no root directory, an initialization ends there: it
/// fails with `ROOT_DIRECTORY_FAILURE` and asks nothing of the writer and
/// of the existence check, so nothing is written and nothing is probed.
pub proof fn law_unresolved_root_ends_the_initialization<
    F: Fn(&str, Option<&str>, bool, Option<&HashMap<String, String>>) -> Result<
        Option<String>,
        Option<String>,
    >,
    G: Fn(&str, &str, bool) -> Result<(), String>,
    H: Fn(&str) -> Result<bool, ()>,
>(
    run_command: F,
    write_file: G,
    file_exists: H,
    target_directory: Option<Seq<char>>,
    skip_list: Seq<&str>,
    r: Result<(), String>,
)
    requires
        can_run_at(run_command, GIT_REPO_ROOT_COMMAND@, target_directory),
        forall|answer: Result<Option<String>, Option<String>>| #[trigger]
            may_run(run_command, GIT_REPO_ROOT_COMMAND@, target_directory, answer)
                ==> !names_directory(answer),
    ensures
        init_allowed(run_command, write_file, file_exists, target_directory, skip_list),
        init_outcome(run_command, write_file, file_exists, target_directory, skip_list, r)
            ==> (r matches Err(e) && e@ == ROOT_DIRECTORY_FAILURE@),
{
    assert forall|root: String|
        !#[trigger] may_run(
            run_command,
            GIT_REPO_ROOT_COMMAND@,
            target_directory,
            Ok(Some(root)),
        ) by {
        assert(names_directory(Ok(Some(root))));
    }
}

/// Where the set-up of the hooks cannot succeed, an initialization ends
/// with it: it fails with `HOOK_SETUP_FAILURE` once the root is known, and
/// it asks nothing of the existence check, so the creation of the
/// configuration file is not attempted.
pub proof fn law_failed_setup_ends_the_initialization<
    F: Fn(&str, Option<&str>, bool, Option<&HashMap<String, String>>) -> Result<
        Option<String>,
        Option<String>,
    >,
    G: Fn(&str, &str, bool) -> Result<(), String>,
    H: Fn(&str) -> Result<bool, ()>,
>(
    run_command: F,
    write_file: G,
    file_exists: H,
    target_directory: Option<Seq<char>>,
    skip_list: Seq<&str>,
    r: Result<(), String>,
)
    requires
        can_run_at(run_command, GIT_REPO_ROOT_COMMAND@, target_directory),
        forall|root: String| #[trigger]
            may_run(run_command, GIT_REPO_ROOT_COMMAND@, target_directory, Ok(Some(root)))
                ==> setup_allowed(run_command, write_file, root@, skip_list) && !setup_may_succeed(
                run_command,
                write_file,
                root@,
                skip_list,
            ),
    ensures
        init_allowed(run_command, write_file, file_exists, target_directory, skip_list),
        init_outcome(run_command, write_file, file_exists, target_directory, skip_list, r)
            ==> (r matches Err(e) && (e@ == ROOT_DIRECTORY_FAILURE@ || e@
            == HOOK_SETUP_FAILURE@)),
{
}

/// Where every root directory that git may name holds a candidate
/// configuration file, an initialization asks of the writer only what the
/// set-up of the hooks asks: the hook scripts are written, the
/// configuration file that exists is not.
pub proof fn law_initialization_keeps_existing_config<
    F: Fn(&str, Option<&str>, bool, Option<&HashMap<String, String>>) -> Result<
        Option<String>,
        Option<String>,
    >,
    G: Fn(&str, &str, bool) -> Result<(), String>,
    H: Fn(&str) -> Result<bool, ()>,
>(
    run_command: F,
    write_file: G,
    file_exists: H,
    dir: Set<Seq<char>>,
    target_directory: Option<Seq<char>>,
    skip_list: Seq<&str>,
)
    requires
        can_run_at(run_command, GIT_REPO_ROOT_COMMAND@, target_directory),
        answers_for(file_exists, dir),
        forall|root: String| #[trigger]
            may_run(run_command, GIT_REPO_ROOT_COMMAND@, target_directory, Ok(Some(root)))
                ==> setup_allowed(run_command, write_file, root@, skip_list) && holds_config(
                dir,
                root@,
            ) && lookup_allowed(file_exists, root@),
    ensures
        init_allowed(run_command, write_file, file_exists, target_directory, skip_list),
{
    assert forall|root: String| #[trigger]
        may_run(
            run_command,
            GIT_REPO_ROOT_COMMAND@,
            target_directory,
            Ok(Some(root)),
        ) implies hooks_step_allowed(run_command, write_file, file_exists, root@, skip_list) by {
        law_existing_config_is_not_written(
            write_file,
            file_exists,
            dir,
            root@,
            DEFAULT_CONFIG_FILE_NAME@,
        );
    }
}

} // verus!
