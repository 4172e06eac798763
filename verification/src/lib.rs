//! The engine of a git-hook runner: it installs hook scripts into a
//! repository and, when a hook fires, finds the configured command groups
//! and says what is to run and how the run ends.
//!
//! The library performs no I/O of its own. Files and git are reached
//! through capabilities that the caller hands in; processes are started by
//! the caller, who is told what to start and reports how it ended.

use vstd::prelude::*;

pub mod capability;
pub mod command;
pub mod config;
pub mod env_overlay;
pub mod git;
pub mod hooks;
pub mod init_directory;
pub mod orchestrator;
pub mod task;
pub mod text;
pub mod text_map;
pub mod unit;

pub use config::ConfigFile;
pub use config::NO_CONFIG_FILE_FOUND;
pub use hooks::{HOOK_NAMES, NO_CONFIG_FILE_FOUND_ERROR_CODE};

use init_directory::{init_allowed, init_outcome};
use std::collections::HashMap;

verus! {

/// Initializes the repository that holds the current directory: finds its
/// root directory, installs the hook scripts but for those on the skip
/// list, and creates the default configuration file unless one exists.
/// The first step that fails ends the initialization with its own error,
/// and no capability is called for a later step.
pub fn init<F, G, H>(
    run_command: F,
    write_file: G,
    file_exists: H,
    hook_file_skip_list: Vec<&str>,
) -> (r: Result<(), String>)
    where
        F: Fn(&str, Option<&str>, bool, Option<&HashMap<String, String>>) -> Result<
            Option<String>,
            Option<String>,
        >,
        G: Fn(&str, &str, bool) -> Result<(), String>,
        H: Fn(&str) -> Result<bool, ()>,

    requires
        init_allowed(run_command, write_file, file_exists, None, hook_file_skip_list@),
    ensures
        init_outcome(run_command, write_file, file_exists, None, hook_file_skip_list@, r),
{
    init_directory::init_directory(
        &run_command,
        &write_file,
        &file_exists,
        None,
        hook_file_skip_list,
    )
}

} // verus!
