//! What the contracts say of the capabilities that a caller hands in: the
//! command runner, the file writer, the existence check and the file reader.
//! A capability may answer differently each time it is asked, so a contract
//! speaks of the answers it may give. A function asks of a capability only
//! that it can be called with the arguments that the function may hand it,
//! and only in the cases in which it may do so: a capability that must not
//! be called in some case is a fit argument wherever the function does not
//! call it.

use std::collections::HashMap;
use vstd::prelude::*;

verus! {

/// The existence check can be asked about `path`.
pub open spec fn can_probe_at<H: Fn(&str) -> Result<bool, ()>>(
    file_exists: H,
    path: Seq<char>,
) -> bool {
    forall|p: &str| p@ == path ==> call_requires(file_exists, (p,))
}

/// The existence check may give `answer` when asked about `path`.
pub open spec fn may_probe<H: Fn(&str) -> Result<bool, ()>>(
    file_exists: H,
    path: Seq<char>,
    answer: Result<bool, ()>,
) -> bool {
    exists|p: &str| p@ == path && call_ensures(file_exists, (p,), answer)
}

/// The existence check may fail when asked about `path`.
pub open spec fn probe_may_fail<H: Fn(&str) -> Result<bool, ()>>(
    file_exists: H,
    path: Seq<char>,
) -> bool {
    exists|answer: Result<bool, ()>| answer is Err && may_probe(file_exists, path, answer)
}

/// The existence check answers as the directory `dir` would, the set of
/// the paths that exist: it never fails, and it says of each path whether
/// it is in `dir`.
pub open spec fn answers_for<H: Fn(&str) -> Result<bool, ()>>(
    file_exists: H,
    dir: Set<Seq<char>>,
) -> bool {
    forall|path: Seq<char>, answer: Result<bool, ()>|
        may_probe(file_exists, path, answer) ==> answer == Ok::<bool, ()>(dir.contains(path))
}

/// The reader can be asked for the file at `path`.
pub open spec fn can_read_at<H: Fn(&str) -> Result<String, ()>>(
    read_file: H,
    path: Seq<char>,
) -> bool {
    forall|p: &str| p@ == path ==> call_requires(read_file, (p,))
}

/// The reader may give `answer` when asked for the file at `path`.
pub open spec fn may_read<H: Fn(&str) -> Result<String, ()>>(
    read_file: H,
    path: Seq<char>,
    answer: Result<String, ()>,
) -> bool {
    exists|p: &str| p@ == path && call_ensures(read_file, (p,), answer)
}

/// The reader may fail when asked for the file at `path`.
pub open spec fn read_may_fail<H: Fn(&str) -> Result<String, ()>>(
    read_file: H,
    path: Seq<char>,
) -> bool {
    exists|answer: Result<String, ()>| answer is Err && may_read(read_file, path, answer)
}

/// The writer can be told to write `contents` to `path`, as an
/// executable file or not as `executable` says.
pub open spec fn can_write_at<G: Fn(&str, &str, bool) -> Result<(), String>>(
    write_file: G,
    path: Seq<char>,
    contents: Seq<char>,
    executable: bool,
) -> bool {
    forall|p: &str, c: &str|
        p@ == path && c@ == contents ==> call_requires(write_file, (p, c, executable))
}

/// The writer may give `answer` when told to write `contents` to `path`.
pub open spec fn may_write<G: Fn(&str, &str, bool) -> Result<(), String>>(
    write_file: G,
    path: Seq<char>,
    contents: Seq<char>,
    executable: bool,
    answer: Result<(), String>,
) -> bool {
    exists|p: &str, c: &str|
        p@ == path && c@ == contents && call_ensures(write_file, (p, c, executable), answer)
}

/// The writer may succeed when told to write `contents` to `path`.
pub open spec fn write_may_succeed<G: Fn(&str, &str, bool) -> Result<(), String>>(
    write_file: G,
    path: Seq<char>,
    contents: Seq<char>,
    executable: bool,
) -> bool {
    exists|answer: Result<(), String>|
        answer is Ok && may_write(write_file, path, contents, executable, answer)
}

/// The writer may fail when told to write `contents` to `path`.
pub open spec fn write_may_fail<G: Fn(&str, &str, bool) -> Result<(), String>>(
    write_file: G,
    path: Seq<char>,
    contents: Seq<char>,
    executable: bool,
) -> bool {
    exists|answer: Result<(), String>|
        answer is Err && may_write(write_file, path, contents, executable, answer)
}

/// The view of an optional directory argument.
pub open spec fn dir_view(dir: Option<&str>) -> Option<Seq<char>> {
    match dir {
        Some(d) => Some(d@),
        None => None,
    }
}

/// The command runner can be told to run `command` in `dir`, without
/// streaming and without extra environment.
pub open spec fn can_run_at<
    F: Fn(&str, Option<&str>, bool, Option<&HashMap<String, String>>) -> Result<
        Option<String>,
        Option<String>,
    >,
>(run_command: F, command: Seq<char>, dir: Option<Seq<char>>) -> bool {
    forall|c: &str, d: Option<&str>|
        c@ == command && dir_view(d) == dir ==> call_requires(
            run_command,
            (c, d, false, None::<&HashMap<String, String>>),
        )
}

/// The command runner may give `answer` when told to run `command` in `dir`,
/// without streaming and without extra environment.
pub open spec fn may_run<
    F: Fn(&str, Option<&str>, bool, Option<&HashMap<String, String>>) -> Result<
        Option<String>,
        Option<String>,
    >,
>(
    run_command: F,
    command: Seq<char>,
    dir: Option<Seq<char>>,
    answer: Result<Option<String>, Option<String>>,
) -> bool {
    exists|c: &str, d: Option<&str>|
        c@ == command && dir_view(d) == dir && call_ensures(
            run_command,
            (c, d, false, None::<&HashMap<String, String>>),
            answer,
        )
}

} // verus!
