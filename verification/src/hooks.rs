//! The hook names, the hook script, and its installation.

use crate::capability::{can_write_at, may_write, write_may_fail, write_may_succeed};
use crate::text::{join_path, joined, same_text};
use vstd::prelude::*;
use vstd::string::*;

verus! {

/// The names of the hooks that git may fire.
pub const HOOK_NAMES: [&'static str; 19] = [
    "applypatch-msg",
    "pre-applypatch",
    "post-applypatch",
    "pre-commit",
    "prepare-commit-msg",
    "commit-msg",
    "post-commit",
    "pre-rebase",
    "post-checkout",
    "post-merge",
    "pre-push",
    "pre-receive",
    "update",
    "post-receive",
    "post-update",
    "push-to-checkout",
    "pre-auto-gc",
    "post-rewrite",
    "sendemail-validate",
];

/// The exit code that stands for "no configuration file found".
pub const NO_CONFIG_FILE_FOUND_ERROR_CODE: u8 = 3;

/// The script that is installed under each hook name. It hands the hook
/// over to the `crusty-hooks` program and treats a missing configuration
/// as nothing to do.
pub const HOOK_FILE_TEMPLATE: &'static str = "#!/bin/sh
# crusty-hooks

hookName=$(basename \"$0\")

if ! command -v crusty-hooks >/dev/null 2>&1; then
  echo \"[crusty-hooks] crusty-hooks is not installed, skipping the ${hookName} hook\"
  exit 0
fi

crusty-hooks run --hook \"${hookName}\"
hookExitCode=$?

if [ ${hookExitCode} -eq 3 ]; then
  exit 0
fi

exit ${hookExitCode}
";

/// The error of an installation in which a write failed.
pub const HOOK_CREATION_ERROR: &'static str =
    "Fatal error encountered while trying to create git hook files";

/// Whether `name` is on the skip list.
pub open spec fn is_skipped(skip_list: Seq<&str>, name: Seq<char>) -> bool {
    exists|k: int| 0 <= k < skip_list.len() && skip_list[k]@ == name
}

/// The path of the script of the `i`-th hook.
pub open spec fn hook_path(root: Seq<char>, hooks_directory: Seq<char>, i: int) -> Seq<char> {
    joined(joined(root, hooks_directory), HOOK_NAMES[i]@)
}

/// The writer may accept the script of each of the first `n` hooks that is
/// not skipped.
pub open spec fn written_before<G: Fn(&str, &str, bool) -> Result<(), String>>(
    write_file: G,
    root: Seq<char>,
    hooks_directory: Seq<char>,
    skip_list: Seq<&str>,
    n: int,
) -> bool {
    forall|j: int|
        0 <= j < n && !is_skipped(skip_list, #[trigger] HOOK_NAMES[j]@) ==> write_may_succeed(
            write_file,
            hook_path(root, hooks_directory, j),
            HOOK_FILE_TEMPLATE@,
            true,
        )
}

/// What installing the hook scripts asks of the writer: that it can be told
/// to write the script, as an executable, for a hook that is not skipped,
/// once it may have accepted the script of every such hook before it.
/// Nothing is asked of it for a hook on the skip list.
pub open spec fn hook_files_allowed<G: Fn(&str, &str, bool) -> Result<(), String>>(
    write_file: G,
    root: Seq<char>,
    hooks_directory: Seq<char>,
    skip_list: Seq<&str>,
) -> bool {
    forall|i: int|
        0 <= i < 19 && !is_skipped(skip_list, HOOK_NAMES[i]@) && #[trigger] written_before(
            write_file,
            root,
            hooks_directory,
            skip_list,
            i,
        ) ==> can_write_at(
            write_file,
            hook_path(root, hooks_directory, i),
            HOOK_FILE_TEMPLATE@,
            true,
        )
}

/// What installing the hook scripts may return, given what the writer may
/// answer.
pub open spec fn hook_files_outcome<G: Fn(&str, &str, bool) -> Result<(), String>>(
    write_file: G,
    root: Seq<char>,
    hooks_directory: Seq<char>,
    skip_list: Seq<&str>,
    r: Result<(), String>,
) -> bool {
    match r {
        Ok(_) => written_before(write_file, root, hooks_directory, skip_list, 19),
        Err(e) => {
            &&& e@ == HOOK_CREATION_ERROR@
            &&& exists|i: int|
                0 <= i < 19 && !is_skipped(skip_list, HOOK_NAMES[i]@) && written_before(
                    write_file,
                    root,
                    hooks_directory,
                    skip_list,
                    i,
                ) && write_may_fail(
                    write_file,
                    hook_path(root, hooks_directory, i),
                    HOOK_FILE_TEMPLATE@,
                    true,
                )
        },
    }
}

/// Whether `name` is on the skip list.
pub fn is_on_skip_list(hook_file_skip_list: &Vec<&str>, name: &str) -> (skipped: bool)
    ensures
        skipped == is_skipped(hook_file_skip_list@, name@),
{
    let mut k: usize = 0;
    while k < hook_file_skip_list.len()
        invariant
            k <= hook_file_skip_list@.len(),
            forall|j: int| 0 <= j < k ==> hook_file_skip_list@[j]@ != name@,
        decreases hook_file_skip_list@.len() - k,
    {
        if same_text(hook_file_skip_list[k], name) {
            return true;
        }
        k += 1;
    }
    false
}

/// Writes the hook script, as an executable file, under the name of every
/// hook that is not on the skip list, in the order of `HOOK_NAMES`. The
/// first write that fails ends the installation. The writer is called
/// for no hook on the skip list, and for none behind a write that failed.
pub fn create_hook_files<F>(
    write_file: &F,
    root_directory_path: &str,
    hooks_directory: &str,
    hook_file_skip_list: &Vec<&str>,
) -> (r: Result<(), String>)
    where F: Fn(&str, &str, bool) -> Result<(), String>
    requires
        hook_files_allowed(
            *write_file,
            root_directory_path@,
            hooks_directory@,
            hook_file_skip_list@,
        ),
    ensures
        hook_files_outcome(
            *write_file,
            root_directory_path@,
            hooks_directory@,
            hook_file_skip_list@,
            r,
        ),
{
    let directory = join_path(root_directory_path, hooks_directory);
    let mut i: usize = 0;
    while i < 19
        invariant
            i <= 19,
            hook_files_allowed(
                *write_file,
                root_directory_path@,
                hooks_directory@,
                hook_file_skip_list@,
            ),
            directory@ == joined(root_directory_path@, hooks_directory@),
            written_before(
                *write_file,
                root_directory_path@,
                hooks_directory@,
                hook_file_skip_list@,
                i as int,
            ),
        decreases 19 - i,
    {
        let name = HOOK_NAMES[i];
        if !is_on_skip_list(hook_file_skip_list, name) {
            let path = join_path(directory.as_str(), name);
            let written = write_file(path.as_str(), HOOK_FILE_TEMPLATE, true);
            assert(may_write(
                *write_file,
                hook_path(root_directory_path@, hooks_directory@, i as int),
                HOOK_FILE_TEMPLATE@,
                true,
                written,
            ));
            if written.is_err() {
                return Err(String::from_str(HOOK_CREATION_ERROR));
            }
        }
        i += 1;
    }
    Ok(())
}

} // verus!
