//! Finding, creating and reading the configuration file, and the
//! configuration document itself.

use crate::capability::{
    answers_for, can_probe_at, can_read_at, can_write_at, may_probe, may_read, may_write,
    probe_may_fail,
    read_may_fail,
    write_may_fail, write_may_succeed,
};
use crate::text::{has_char, join_path, joined, lemma_joined_has_slash, same_text};
use crate::text_map::TextMap;
use vstd::prelude::*;
use vstd::string::*;

verus! {

/// The text of a new configuration file: one hook with one group of one
/// command, and a logging section.
pub const CONFIG_FILE_TEMPLATE: &'static str = "[hooks]
pre-commit = [
  [\"cargo test\"]
]

[logging]
verbose = true
";

/// The primary name of the configuration file.
pub const DEFAULT_CONFIG_FILE_NAME: &'static str = ".crusty-hooks.toml";

/// The names under which the configuration file is looked for, in order.
pub const CONFIG_FILE_NAMES: [&'static str; 2] = [DEFAULT_CONFIG_FILE_NAME, "crusty-hooks.toml"];

/// The text that says that no candidate configuration file exists.
pub const NO_CONFIG_FILE_FOUND: &'static str = "No config file found";

/// The error of a lookup in which a probe failed.
pub const FATAL_ERROR_DURING_CONFIG_LOOKUP: &'static str =
    "Fatal error encountered while looking for existing config";

/// The error of a creation in which the write failed.
pub const CONFIG_CREATION_FAILED: &'static str = "Failed to create config file";

/// The error of a load in which the file that was found could not be read.
pub const CONFIG_READ_FAILED: &'static str = "Failure reading file";

/// The path of the `i`-th candidate configuration file under `root`.
pub open spec fn candidate(root: Seq<char>, i: int) -> Seq<char> {
    joined(root, CONFIG_FILE_NAMES[i]@)
}

/// The existence check may deny each of the first `n` candidates under `root`.
pub open spec fn absent_before<H: Fn(&str) -> Result<bool, ()>>(
    file_exists: H,
    root: Seq<char>,
    n: int,
) -> bool {
    forall|j: int| 0 <= j < n ==> may_probe(file_exists, candidate(root, j), Ok(false))
}

/// What a lookup under `root` asks of the existence check: that it can be
/// asked about a candidate once it may have denied every candidate before
/// it. The first candidate is always asked about; the second only where
/// the first may be reported absent.
pub open spec fn lookup_allowed<H: Fn(&str) -> Result<bool, ()>>(
    file_exists: H,
    root: Seq<char>,
) -> bool {
    forall|i: int|
        0 <= i < 2 && #[trigger] absent_before(file_exists, root, i) ==> can_probe_at(
            file_exists,
            candidate(root, i),
        )
}

/// Some candidate under `root` may be reported as present, all before it as absent.
pub open spec fn may_find<H: Fn(&str) -> Result<bool, ()>>(file_exists: H, root: Seq<char>) -> bool {
    exists|i: int|
        0 <= i < 2 && absent_before(file_exists, root, i) && may_probe(
            file_exists,
            candidate(root, i),
            Ok(true),
        )
}

/// The lookup under `root` may be cut short by a failing probe.
pub open spec fn lookup_may_fail<H: Fn(&str) -> Result<bool, ()>>(
    file_exists: H,
    root: Seq<char>,
) -> bool {
    exists|i: int|
        0 <= i < 2 && absent_before(file_exists, root, i) && probe_may_fail(
            file_exists,
            candidate(root, i),
        )
}

/// What a lookup under `root` may return, given what the existence check may answer.
pub open spec fn lookup_outcome<H: Fn(&str) -> Result<bool, ()>>(
    file_exists: H,
    root: Seq<char>,
    r: Result<String, String>,
) -> bool {
    match r {
        Ok(path) => {
            ||| path@ == NO_CONFIG_FILE_FOUND@ && absent_before(file_exists, root, 2)
            ||| exists|i: int|
                0 <= i < 2 && path@ == candidate(root, i) && absent_before(file_exists, root, i)
                    && may_probe(file_exists, candidate(root, i), Ok(true))
        },
        Err(e) => e@ == FATAL_ERROR_DURING_CONFIG_LOOKUP@ && lookup_may_fail(file_exists, root),
    }
}

/// Probes the candidate file names under `root_directory_path` in order and
/// returns the path of the first that exists, or the text
/// `NO_CONFIG_FILE_FOUND` where none does. A failing probe ends the lookup,
/// and a candidate is asked about only once every candidate before it was
/// reported absent.
pub fn find_config_file<F>(root_directory_path: &str, file_exists: &F) -> (r: Result<String, String>)
    where F: Fn(&str) -> Result<bool, ()>
    requires
        lookup_allowed(*file_exists, root_directory_path@),
    ensures
        lookup_outcome(*file_exists, root_directory_path@, r),
{
    let mut i: usize = 0;
    while i < 2
        invariant
            i <= 2,
            lookup_allowed(*file_exists, root_directory_path@),
            absent_before(*file_exists, root_directory_path@, i as int),
        decreases 2 - i,
    {
        let path = join_path(root_directory_path, CONFIG_FILE_NAMES[i]);
        let answer = file_exists(path.as_str());
        assert(may_probe(*file_exists, candidate(root_directory_path@, i as int), answer));
        match answer {
            Err(_) => {
                assert(probe_may_fail(*file_exists, candidate(root_directory_path@, i as int)));
                return Err(String::from_str(FATAL_ERROR_DURING_CONFIG_LOOKUP));
            },
            Ok(found) => {
                if found {
                    return Ok(path);
                }
            },
        }
        i += 1;
    }
    Ok(String::from_str(NO_CONFIG_FILE_FOUND))
}

/// No candidate path under any root reads as the text that stands for
/// "nothing found": every candidate holds a slash, that text holds none.
pub proof fn lemma_candidate_is_not_sentinel(root: Seq<char>, i: int)
    ensures
        candidate(root, i) != NO_CONFIG_FILE_FOUND@,
{
    reveal_strlit("No config file found");
    lemma_joined_has_slash(root, CONFIG_FILE_NAMES[i]@);
    assert(!has_char(NO_CONFIG_FILE_FOUND@, '/'));
}

/// The three texts with which loading the configuration fails differ from
/// one another, so a caller can tell the failures apart.
pub proof fn lemma_load_errors_differ()
    ensures
        NO_CONFIG_FILE_FOUND@ != FATAL_ERROR_DURING_CONFIG_LOOKUP@,
        NO_CONFIG_FILE_FOUND@ != CONFIG_READ_FAILED@,
        FATAL_ERROR_DURING_CONFIG_LOOKUP@ != CONFIG_READ_FAILED@,
{
    reveal_strlit("No config file found");
    reveal_strlit("Fatal error encountered while looking for existing config");
    reveal_strlit("Failure reading file");
    assert(NO_CONFIG_FILE_FOUND@[0] == 'N');
    assert(CONFIG_READ_FAILED@[0] == 'F');
    assert(NO_CONFIG_FILE_FOUND@.len() == 20);
    assert(FATAL_ERROR_DURING_CONFIG_LOOKUP@.len() == 57);
    assert(CONFIG_READ_FAILED@.len() == 20);
}

/// Whether `name` is one of the candidate file names.
pub open spec fn is_config_name(name: Seq<char>) -> bool {
    name == CONFIG_FILE_NAMES[0]@ || name == CONFIG_FILE_NAMES[1]@
}

/// The file name that is created for a wish of `desired`: the wish itself
/// where it is a candidate name, the primary name otherwise.
pub open spec fn chosen_name(desired: Seq<char>) -> Seq<char> {
    if is_config_name(desired) {
        desired
    } else {
        DEFAULT_CONFIG_FILE_NAME@
    }
}

/// What creating the file `name` under `root` asks of the two
/// capabilities: of the existence check what a lookup asks, and of the
/// writer that it can be told to write the template to that file, not as
/// an executable, where every candidate may be reported absent. Where a
/// candidate is found or the lookup fails, nothing is asked of the writer.
pub open spec fn creation_allowed<
    G: Fn(&str, &str, bool) -> Result<(), String>,
    H: Fn(&str) -> Result<bool, ()>,
>(write_file: G, file_exists: H, root: Seq<char>, name: Seq<char>) -> bool {
    &&& lookup_allowed(file_exists, root)
    &&& absent_before(file_exists, root, 2) ==> can_write_at(
        write_file,
        joined(root, name),
        CONFIG_FILE_TEMPLATE@,
        false,
    )
}

/// What creating the file `name` under `root` may return, given what the two
/// capabilities may answer.
pub open spec fn creation_outcome<
    G: Fn(&str, &str, bool) -> Result<(), String>,
    H: Fn(&str) -> Result<bool, ()>,
>(write_file: G, file_exists: H, root: Seq<char>, name: Seq<char>, r: Result<(), String>) -> bool {
    match r {
        Ok(_) => {
            ||| may_find(file_exists, root)
            ||| absent_before(file_exists, root, 2) && write_may_succeed(
                write_file,
                joined(root, name),
                CONFIG_FILE_TEMPLATE@,
                false,
            )
        },
        Err(e) => {
            ||| e@ == FATAL_ERROR_DURING_CONFIG_LOOKUP@ && lookup_may_fail(file_exists, root)
            ||| e@ == CONFIG_CREATION_FAILED@ && absent_before(file_exists, root, 2)
                && write_may_fail(write_file, joined(root, name), CONFIG_FILE_TEMPLATE@, false)
        },
    }
}

/// Creates the primary configuration file under `root_directory_path` from
/// the template, unless a candidate file is already there; the writer is
/// called only where every candidate was reported absent.
pub fn create_default_config_file<F, G>(
    write_file: &F,
    file_exists: &G,
    root_directory_path: &str,
) -> (r: Result<(), String>)
    where F: Fn(&str, &str, bool) -> Result<(), String>, G: Fn(&str) -> Result<bool, ()>
    requires
        creation_allowed(
            *write_file,
            *file_exists,
            root_directory_path@,
            DEFAULT_CONFIG_FILE_NAME@,
        ),
    ensures
        creation_outcome(
            *write_file,
            *file_exists,
            root_directory_path@,
            DEFAULT_CONFIG_FILE_NAME@,
            r,
        ),
{
    create_config_file(write_file, file_exists, root_directory_path, DEFAULT_CONFIG_FILE_NAME)
}

/// Creates a configuration file under `root_directory_path` from the
/// template, unless a candidate file is already there. The file gets the
/// name `desired_config_file_name` where that is a candidate name, and the
/// primary name otherwise. The writer is called only where every candidate
/// was reported absent: where a candidate exists or the lookup fails, the
/// function asks nothing of it.
pub fn create_config_file<F, G>(
    write_file: &F,
    file_exists: &G,
    root_directory_path: &str,
    desired_config_file_name: &str,
) -> (r: Result<(), String>)
    where F: Fn(&str, &str, bool) -> Result<(), String>, G: Fn(&str) -> Result<bool, ()>
    requires
        creation_allowed(
            *write_file,
            *file_exists,
            root_directory_path@,
            chosen_name(desired_config_file_name@),
        ),
    ensures
        creation_outcome(
            *write_file,
            *file_exists,
            root_directory_path@,
            chosen_name(desired_config_file_name@),
            r,
        ),
{
    match find_config_file(root_directory_path, file_exists) {
        Err(_) => {
            return Err(String::from_str(FATAL_ERROR_DURING_CONFIG_LOOKUP));
        },
        Ok(path) => {
            if !same_text(path.as_str(), NO_CONFIG_FILE_FOUND) {
                return Ok(());
            }
            proof {
                lemma_candidate_is_not_sentinel(root_directory_path@, 0);
                lemma_candidate_is_not_sentinel(root_directory_path@, 1);
            }
        },
    }
    let config_file = if same_text(desired_config_file_name, CONFIG_FILE_NAMES[0]) || same_text(
        desired_config_file_name,
        CONFIG_FILE_NAMES[1],
    ) {
        desired_config_file_name
    } else {
        DEFAULT_CONFIG_FILE_NAME
    };
    let path = join_path(root_directory_path, config_file);
    let written = write_file(path.as_str(), CONFIG_FILE_TEMPLATE, false);
    assert(config_file@ == chosen_name(desired_config_file_name@));
    assert(may_write(*write_file, path@, CONFIG_FILE_TEMPLATE@, false, written));
    if written.is_err() {
        assert(write_may_fail(
            *write_file,
            joined(root_directory_path@, chosen_name(desired_config_file_name@)),
            CONFIG_FILE_TEMPLATE@,
            false,
        ));
        return Err(String::from_str(CONFIG_CREATION_FAILED));
    }
    assert(write_may_succeed(
        *write_file,
        joined(root_directory_path@, chosen_name(desired_config_file_name@)),
        CONFIG_FILE_TEMPLATE@,
        false,
    ));
    Ok(())
}

/// What loading the configuration text under `root` asks of the two
/// capabilities: of the existence check what a lookup asks, and of the
/// reader that it can be asked for a candidate that may be found. Where no
/// candidate may be found, nothing is asked of the reader.
pub open spec fn contents_allowed<
    F: Fn(&str) -> Result<String, ()>,
    G: Fn(&str) -> Result<bool, ()>,
>(read_file: F, file_exists: G, root: Seq<char>) -> bool {
    &&& lookup_allowed(file_exists, root)
    &&& forall|i: int|
        0 <= i < 2 && #[trigger] absent_before(file_exists, root, i) && may_probe(
            file_exists,
            candidate(root, i),
            Ok(true),
        ) ==> can_read_at(read_file, candidate(root, i))
}

/// What loading the configuration text under `root` may return, given what
/// the two capabilities may answer.
pub open spec fn contents_outcome<
    F: Fn(&str) -> Result<String, ()>,
    G: Fn(&str) -> Result<bool, ()>,
>(read_file: F, file_exists: G, root: Seq<char>, r: Result<String, String>) -> bool {
    match r {
        Ok(contents) => exists|i: int|
            0 <= i < 2 && absent_before(file_exists, root, i) && may_probe(
                file_exists,
                candidate(root, i),
                Ok(true),
            ) && may_read(read_file, candidate(root, i), Ok(contents)),
        Err(e) => {
            ||| e@ == NO_CONFIG_FILE_FOUND@ && absent_before(file_exists, root, 2)
            ||| e@ == FATAL_ERROR_DURING_CONFIG_LOOKUP@ && lookup_may_fail(file_exists, root)
            ||| e@ == CONFIG_READ_FAILED@ && exists|i: int|
                0 <= i < 2 && absent_before(file_exists, root, i) && may_probe(
                    file_exists,
                    candidate(root, i),
                    Ok(true),
                ) && read_may_fail(read_file, candidate(root, i))
        },
    }
}

/// Finds the configuration file under `root_directory_path` and returns its
/// text. Fails with `NO_CONFIG_FILE_FOUND` where no candidate exists, with
/// `FATAL_ERROR_DURING_CONFIG_LOOKUP` where a probe fails, and with
/// `CONFIG_READ_FAILED` where the file that was found cannot be read. The
/// reader is called only for a candidate that was found.
pub fn get_config_file_contents<F, G>(
    read_file: &F,
    file_exists: &G,
    root_directory_path: &str,
) -> (r: Result<String, String>)
    where F: Fn(&str) -> Result<String, ()>, G: Fn(&str) -> Result<bool, ()>
    requires
        contents_allowed(*read_file, *file_exists, root_directory_path@),
    ensures
        contents_outcome(*read_file, *file_exists, root_directory_path@, r),
{
    let path = match find_config_file(root_directory_path, file_exists) {
        Ok(path) => {
            if same_text(path.as_str(), NO_CONFIG_FILE_FOUND) {
                proof {
                    lemma_candidate_is_not_sentinel(root_directory_path@, 0);
                    lemma_candidate_is_not_sentinel(root_directory_path@, 1);
                }
                return Err(String::from_str(NO_CONFIG_FILE_FOUND));
            } else {
                path
            }
        },
        Err(_) => {
            return Err(String::from_str(FATAL_ERROR_DURING_CONFIG_LOOKUP));
        },
    };
    let answer = read_file(path.as_str());
    assert(may_read(*read_file, path@, answer));
    match answer {
        Ok(contents) => Ok(contents),
        Err(_) => {
            assert(read_may_fail(*read_file, path@));
            Err(String::from_str(CONFIG_READ_FAILED))
        },
    }
}

/// Whether the directory `dir`, the set of the paths that exist, holds a
/// candidate configuration file under `root`.
pub open spec fn holds_config(dir: Set<Seq<char>>, root: Seq<char>) -> bool {
    exists|i: int| 0 <= i < 2 && dir.contains(candidate(root, i))
}

/// The directory after a creation of the file `name` under `root` in which
/// the write succeeds: as before where it held a candidate file, with the
/// new file in it otherwise.
pub open spec fn after_creation(dir: Set<Seq<char>>, root: Seq<char>, name: Seq<char>) -> Set<
    Seq<char>,
> {
    if holds_config(dir, root) {
        dir
    } else {
        dir.insert(joined(root, name))
    }
}

/// In a directory that holds a candidate configuration file, a creation
/// asks nothing of the writer: it is a fit argument even where it cannot
/// be called at all, so the file that exists is neither written again nor
/// replaced.
pub proof fn law_existing_config_is_not_written<
    G: Fn(&str, &str, bool) -> Result<(), String>,
    H: Fn(&str) -> Result<bool, ()>,
>(write_file: G, file_exists: H, dir: Set<Seq<char>>, root: Seq<char>, name: Seq<char>)
    requires
        answers_for(file_exists, dir),
        holds_config(dir, root),
        lookup_allowed(file_exists, root),
    ensures
        creation_allowed(write_file, file_exists, root, name),
{
    let i = choose|i: int| 0 <= i < 2 && dir.contains(candidate(root, i));
    if absent_before(file_exists, root, 2) {
        assert(may_probe(file_exists, candidate(root, i), Ok(false)));
    }
}

/// In a directory that holds a candidate configuration file, a creation
/// succeeds, and it does so because it found that file: the branch that
/// writes is not taken.
pub proof fn law_creation_keeps_existing<
    G: Fn(&str, &str, bool) -> Result<(), String>,
    H: Fn(&str) -> Result<bool, ()>,
>(
    write_file: G,
    file_exists: H,
    dir: Set<Seq<char>>,
    root: Seq<char>,
    name: Seq<char>,
    r: Result<(), String>,
)
    requires
        answers_for(file_exists, dir),
        holds_config(dir, root),
        creation_outcome(write_file, file_exists, root, name, r),
    ensures
        r is Ok,
        may_find(file_exists, root),
        !absent_before(file_exists, root, 2),
{
    let i = choose|i: int| 0 <= i < 2 && dir.contains(candidate(root, i));
    if absent_before(file_exists, root, 2) {
        assert(may_probe(file_exists, candidate(root, i), Ok(false)));
    }
}

/// In a directory that holds no candidate configuration file, a creation
/// writes the template to the file `name` under `root`, not as an
/// executable, and succeeds exactly if that write does. The file it
/// writes is the one by which `after_creation` enlarges the directory.
pub proof fn law_creation_writes_when_absent<
    G: Fn(&str, &str, bool) -> Result<(), String>,
    H: Fn(&str) -> Result<bool, ()>,
>(
    write_file: G,
    file_exists: H,
    dir: Set<Seq<char>>,
    root: Seq<char>,
    name: Seq<char>,
    r: Result<(), String>,
)
    requires
        answers_for(file_exists, dir),
        !holds_config(dir, root),
        creation_outcome(write_file, file_exists, root, name, r),
    ensures
        after_creation(dir, root, name) == dir.insert(joined(root, name)),
        match r {
            Ok(_) => write_may_succeed(write_file, joined(root, name), CONFIG_FILE_TEMPLATE@, false),
            Err(e) => e@ == CONFIG_CREATION_FAILED@ && write_may_fail(
                write_file,
                joined(root, name),
                CONFIG_FILE_TEMPLATE@,
                false,
            ),
        },
{
}

/// The directory model of a creation of the default configuration file is
/// idempotent. In a directory without a candidate file the first creation
/// adds the primary file and nothing else; a second creation, like any
/// creation in a directory that holds a candidate file, leaves the
/// directory as it is.
pub proof fn law_default_creation_is_idempotent(dir: Set<Seq<char>>, root: Seq<char>)
    ensures
        holds_config(after_creation(dir, root, DEFAULT_CONFIG_FILE_NAME@), root),
        after_creation(after_creation(dir, root, DEFAULT_CONFIG_FILE_NAME@), root, DEFAULT_CONFIG_FILE_NAME@)
            == after_creation(dir, root, DEFAULT_CONFIG_FILE_NAME@),
        holds_config(dir, root) ==> after_creation(dir, root, DEFAULT_CONFIG_FILE_NAME@) == dir,
        !holds_config(dir, root) ==> after_creation(dir, root, DEFAULT_CONFIG_FILE_NAME@)
            == dir.insert(candidate(root, 0)),
{
    let once = after_creation(dir, root, DEFAULT_CONFIG_FILE_NAME@);
    if !holds_config(dir, root) {
        assert(once.contains(candidate(root, 0)));
    }
}

/// A second creation of the default configuration file writes nothing.
/// Whatever the directory `dir` held before a first creation, in the
/// directory after it a creation asks nothing of the writer, which so is
/// not called, and it succeeds because it finds a candidate file.
pub proof fn law_second_default_creation_writes_nothing<
    G: Fn(&str, &str, bool) -> Result<(), String>,
    H: Fn(&str) -> Result<bool, ()>,
>(write_file: G, file_exists: H, dir: Set<Seq<char>>, root: Seq<char>, r: Result<(), String>)
    requires
        answers_for(file_exists, after_creation(dir, root, DEFAULT_CONFIG_FILE_NAME@)),
        lookup_allowed(file_exists, root),
        creation_outcome(write_file, file_exists, root, DEFAULT_CONFIG_FILE_NAME@, r),
    ensures
        creation_allowed(write_file, file_exists, root, DEFAULT_CONFIG_FILE_NAME@),
        r is Ok,
        !absent_before(file_exists, root, 2),
{
    let once = after_creation(dir, root, DEFAULT_CONFIG_FILE_NAME@);
    law_default_creation_is_idempotent(dir, root);
    law_existing_config_is_not_written(
        write_file,
        file_exists,
        once,
        root,
        DEFAULT_CONFIG_FILE_NAME@,
    );
    law_creation_keeps_existing(write_file, file_exists, once, root, DEFAULT_CONFIG_FILE_NAME@, r);
}

/// In a directory that holds no candidate configuration file, loading the
/// configuration text asks nothing of the reader: it is not called.
pub proof fn law_missing_config_is_not_read<
    F: Fn(&str) -> Result<String, ()>,
    G: Fn(&str) -> Result<bool, ()>,
>(read_file: F, file_exists: G, dir: Set<Seq<char>>, root: Seq<char>)
    requires
        answers_for(file_exists, dir),
        !holds_config(dir, root),
        lookup_allowed(file_exists, root),
    ensures
        contents_allowed(read_file, file_exists, root),
{
    assert forall|i: int| 0 <= i < 2 implies !may_probe(
        file_exists,
        candidate(root, i),
        Ok(true),
    ) by {
        assert(!dir.contains(candidate(root, i)));
    }
}

/// Where the probe of the first candidate can only fail, a lookup ends
/// there: the second candidate is not asked about, and a creation asks
/// nothing of the writer, a load nothing of the reader.
pub proof fn law_failed_lookup_calls_nothing_more<
    F: Fn(&str) -> Result<String, ()>,
    G: Fn(&str, &str, bool) -> Result<(), String>,
    H: Fn(&str) -> Result<bool, ()>,
>(read_file: F, write_file: G, file_exists: H, root: Seq<char>, name: Seq<char>)
    requires
        can_probe_at(file_exists, candidate(root, 0)),
        forall|answer: Result<bool, ()>|
            may_probe(file_exists, candidate(root, 0), answer) ==> answer is Err,
    ensures
        lookup_allowed(file_exists, root),
        creation_allowed(write_file, file_exists, root, name),
        contents_allowed(read_file, file_exists, root),
{
    assert(!may_probe(file_exists, candidate(root, 0), Ok(false)));
    assert(!may_probe(file_exists, candidate(root, 0), Ok(true)));
    assert forall|i: int| 0 < i < 3 implies !#[trigger] absent_before(file_exists, root, i) by {
        if absent_before(file_exists, root, i) {
            assert(may_probe(file_exists, candidate(root, 0), Ok(false)));
        }
    }
}

/// The configuration document: for each hook name the command groups to
/// run when that hook fires. The commands of a group run one after the
/// other; the groups of a hook run side by side.
#[derive(Debug)]
pub struct ConfigFile {
    pub hooks: TextMap<Vec<Vec<String>>>,
}

impl ConfigFile {
    /// The document that configures no hook.
    pub fn new() -> (config: Self)
        ensures
            config.hooks@ == Map::<Seq<char>, Vec<Vec<String>>>::empty(),
    {
        ConfigFile { hooks: TextMap::new() }
    }

    /// Gives the hook `hook_name` the command groups `groups`, in place of
    /// any it had.
    pub fn configure(&mut self, hook_name: String, groups: Vec<Vec<String>>)
        ensures
            final(self).hooks@ == old(self).hooks@.insert(hook_name@, groups),
    {
        self.hooks.insert(hook_name, groups);
    }

    /// Takes the command groups of the hook `hook_name` out of the
    /// document, if it configures that hook.
    pub fn take_hook(&mut self, hook_name: &str) -> (groups: Option<Vec<Vec<String>>>)
        ensures
            final(self).hooks@ == old(self).hooks@.remove(hook_name@),
            match groups {
                Some(g) => old(self).hooks@.contains_key(hook_name@) && g == old(self).hooks@[hook_name@],
                None => !old(self).hooks@.contains_key(hook_name@),
            },
    {
        self.hooks.remove(hook_name)
    }
}

} // verus!
