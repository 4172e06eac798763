//! The stages of a run: locating the root, loading the configuration,
//! dispatching the hook, and awaiting the units that were dispatched.

use crate::capability::{answers_for, can_run_at, may_probe, may_run};
use crate::command::texts;
use crate::config::{
    absent_before, candidate, contents_allowed, contents_outcome, get_config_file_contents,
    holds_config, law_missing_config_is_not_read, lookup_allowed,
    lemma_load_errors_differ, ConfigFile, NO_CONFIG_FILE_FOUND,
};
use crate::git::{get_root_directory_path, names_directory, GIT_REPO_ROOT_COMMAND};
use crate::hooks::NO_CONFIG_FILE_FOUND_ERROR_CODE;
use crate::init_directory::ROOT_DIRECTORY_FAILURE;
use crate::text::same_text;
use crate::unit::{option_text, result_failure, Unit, UnitView};
use std::collections::HashMap;
use vstd::prelude::*;
use vstd::string::*;

verus! {

/// The detail of the parse error with which a run fails where the
/// configuration file could not be looked up or read.
pub const CONFIG_LOAD_FAILURE: &'static str = "Failed to parse config file";

/// Why a run failed.
#[derive(Clone, Debug, PartialEq, Eq)]
pub enum RunError {
    /// Git named no root directory.
    RootResolution,
    /// No candidate configuration file exists.
    NoConfigFound,
    /// The configuration could not be read or understood; `detail` says why.
    ParseError { detail: String },
    /// A command group failed; `detail` is the first failure observed.
    TaskFailure { detail: String },
}

/// The text that reports `error`.
pub open spec fn error_text(error: RunError) -> Seq<char> {
    match error {
        RunError::RootResolution => ROOT_DIRECTORY_FAILURE@,
        RunError::NoConfigFound => NO_CONFIG_FILE_FOUND@,
        RunError::ParseError { detail } => detail@,
        RunError::TaskFailure { detail } => detail@,
    }
}

impl RunError {
    /// The text that reports this error.
    pub fn message(&self) -> (text: String)
        ensures
            text@ == error_text(*self),
    {
        match self {
            RunError::RootResolution => String::from_str(ROOT_DIRECTORY_FAILURE),
            RunError::NoConfigFound => String::from_str(NO_CONFIG_FILE_FOUND),
            RunError::ParseError { detail } => detail.clone(),
            RunError::TaskFailure { detail } => detail.clone(),
        }
    }

    /// Whether this error says that no configuration file exists.
    pub fn is_no_config_found(&self) -> (b: bool)
        ensures
            b == (*self is NoConfigFound),
    {
        match self {
            RunError::NoConfigFound => true,
            _ => false,
        }
    }
}

/// The exit code with which the result of a run is reported: zero for a
/// success, the reserved code where no configuration file was found, one
/// for every other failure.
pub open spec fn exit_code_of(result: Result<(), RunError>) -> u8 {
    match result {
        Ok(_) => 0,
        Err(RunError::NoConfigFound) => NO_CONFIG_FILE_FOUND_ERROR_CODE,
        Err(_) => 1,
    }
}

/// The exit code with which the result of a run is reported.
pub fn exit_code(result: &Result<(), RunError>) -> (code: u8)
    ensures
        code == exit_code_of(*result),
{
    match result {
        Ok(_) => 0,
        Err(RunError::NoConfigFound) => NO_CONFIG_FILE_FOUND_ERROR_CODE,
        Err(_) => 1,
    }
}

/// What a run has in hand once its configuration is loaded.
#[derive(Debug)]
pub struct Loaded {
    pub root_directory_path: String,
    pub config_file_contents: String,
}

/// What loading may return once the root directory `root` is known, given
/// what the two file capabilities may answer.
pub open spec fn contents_step_outcome<
    G: Fn(&str) -> Result<bool, ()>,
    H: Fn(&str) -> Result<String, ()>,
>(file_exists: G, read_file: H, root: String, r: Result<Loaded, RunError>) -> bool {
    match r {
        Ok(loaded) => loaded.root_directory_path == root && contents_outcome(
            read_file,
            file_exists,
            root@,
            Ok(loaded.config_file_contents),
        ),
        Err(RunError::NoConfigFound) => absent_before(file_exists, root@, 2),
        Err(RunError::ParseError { detail }) => detail@ == CONFIG_LOAD_FAILURE@ && exists|e: String|
            e@ != NO_CONFIG_FILE_FOUND@ && contents_outcome(read_file, file_exists, root@, Err(e)),
        Err(_) => false,
    }
}

/// What loading asks of the three capabilities: of the command runner that
/// it can be asked for the root directory, and, for each root directory
/// that it may name, what loading the configuration text under it asks.
/// Where it names none, nothing is asked of the existence check and of the
/// reader.
pub open spec fn load_allowed<
    F: Fn(&str, Option<&str>, bool, Option<&HashMap<String, String>>) -> Result<
        Option<String>,
        Option<String>,
    >,
    G: Fn(&str) -> Result<bool, ()>,
    H: Fn(&str) -> Result<String, ()>,
>(run_command: F, file_exists: G, read_file: H) -> bool {
    &&& can_run_at(run_command, GIT_REPO_ROOT_COMMAND@, None)
    &&& forall|root: String| #[trigger]
        may_run(run_command, GIT_REPO_ROOT_COMMAND@, None, Ok(Some(root))) ==> contents_allowed(
            read_file,
            file_exists,
            root@,
        )
}

/// What loading may return, given what the three capabilities may answer.
pub open spec fn load_outcome<
    F: Fn(&str, Option<&str>, bool, Option<&HashMap<String, String>>) -> Result<
        Option<String>,
        Option<String>,
    >,
    G: Fn(&str) -> Result<bool, ()>,
    H: Fn(&str) -> Result<String, ()>,
>(run_command: F, file_exists: G, read_file: H, r: Result<Loaded, RunError>) -> bool {
    ||| r matches Err(RunError::RootResolution) && exists|
        answer: Result<Option<String>, Option<String>>,
    |
        !names_directory(answer) && may_run(run_command, GIT_REPO_ROOT_COMMAND@, None, answer)
    ||| exists|root: String|
        may_run(run_command, GIT_REPO_ROOT_COMMAND@, None, Ok(Some(root)))
            && contents_step_outcome(file_exists, read_file, root, r)
}

/// The first two stages of a run: finds the root directory of the
/// repository that holds the current directory, then finds and reads the
/// configuration file under it. A missing configuration file fails with
/// `NoConfigFound`; a failing probe or read fails as a parse error with
/// the text `CONFIG_LOAD_FAILURE`. Nothing is probed or read unless git
/// named a root directory, and nothing is read unless a candidate was found.
pub fn load<F, G, H>(run_command: &F, file_exists: &G, read_file: &H) -> (r: Result<
    Loaded,
    RunError,
>)
    where
        F: Fn(&str, Option<&str>, bool, Option<&HashMap<String, String>>) -> Result<
            Option<String>,
            Option<String>,
        >,
        G: Fn(&str) -> Result<bool, ()>,
        H: Fn(&str) -> Result<String, ()>,

    requires
        load_allowed(*run_command, *file_exists, *read_file),
    ensures
        load_outcome(*run_command, *file_exists, *read_file, r),
{
    let answer = get_root_directory_path(run_command, None);
    let root_directory_path = match answer {
        Ok(Some(path)) => path,
        _ => {
            assert(!names_directory(answer));
            return Err(RunError::RootResolution);
        },
    };
    let contents = get_config_file_contents(read_file, file_exists, root_directory_path.as_str());
    let r = match contents {
        Ok(config_file_contents) => Ok(Loaded { root_directory_path, config_file_contents }),
        Err(e) => {
            proof {
                lemma_load_errors_differ();
            }
            if same_text(e.as_str(), NO_CONFIG_FILE_FOUND) {
                Err(RunError::NoConfigFound)
            } else {
                Err(RunError::ParseError { detail: String::from_str(CONFIG_LOAD_FAILURE) })
            }
        },
    };
    assert(contents_step_outcome(*file_exists, *read_file, root_directory_path, r));
    r
}

/// Where git names a root directory and no candidate configuration file
/// exists under any root it may name, loading fails with `NoConfigFound`:
/// the run ends there, before any unit exists.
pub proof fn law_absent_config_is_no_config_found<
    F: Fn(&str, Option<&str>, bool, Option<&HashMap<String, String>>) -> Result<
        Option<String>,
        Option<String>,
    >,
    G: Fn(&str) -> Result<bool, ()>,
    H: Fn(&str) -> Result<String, ()>,
>(
    run_command: F,
    file_exists: G,
    read_file: H,
    dir: Set<Seq<char>>,
    r: Result<Loaded, RunError>,
)
    requires
        load_outcome(run_command, file_exists, read_file, r),
        forall|answer: Result<Option<String>, Option<String>>|
            may_run(run_command, GIT_REPO_ROOT_COMMAND@, None, answer) ==> names_directory(answer),
        answers_for(file_exists, dir),
        forall|root: String|
            may_run(run_command, GIT_REPO_ROOT_COMMAND@, None, Ok(Some(root))) ==> !holds_config(
                dir,
                root@,
            ),
    ensures
        r matches Err(RunError::NoConfigFound),
{
    let root = choose|root: String|
        may_run(run_command, GIT_REPO_ROOT_COMMAND@, None, Ok(Some(root)))
            && contents_step_outcome(file_exists, read_file, root, r);
    assert(!holds_config(dir, root@));
    assert forall|i: int| 0 <= i < 2 implies !may_probe(
        file_exists,
        candidate(root@, i),
        Ok(true),
    ) by {
        assert(!dir.contains(candidate(root@, i)));
    }
}

/// Where git names a root directory and no candidate configuration file
/// exists under any root it may name, loading asks nothing of the reader:
/// it is not called.
pub proof fn law_absent_config_is_not_read<
    F: Fn(&str, Option<&str>, bool, Option<&HashMap<String, String>>) -> Result<
        Option<String>,
        Option<String>,
    >,
    G: Fn(&str) -> Result<bool, ()>,
    H: Fn(&str) -> Result<String, ()>,
>(run_command: F, file_exists: G, read_file: H, dir: Set<Seq<char>>)
    requires
        can_run_at(run_command, GIT_REPO_ROOT_COMMAND@, None),
        answers_for(file_exists, dir),
        forall|root: String| #[trigger]
            may_run(run_command, GIT_REPO_ROOT_COMMAND@, None, Ok(Some(root))) ==> !holds_config(
                dir,
                root@,
            ) && lookup_allowed(file_exists, root@),
    ensures
        load_allowed(run_command, file_exists, read_file),
{
    assert forall|root: String| #[trigger]
        may_run(run_command, GIT_REPO_ROOT_COMMAND@, None, Ok(Some(root))) implies contents_allowed(
        read_file,
        file_exists,
        root@,
    ) by {
        law_missing_config_is_not_read(read_file, file_exists, dir, root@);
    }
}

/// Where git names no root directory, loading ends there: it fails with
/// `RootResolution` and asks nothing of the existence check and of the
/// reader, so nothing is probed and nothing is read.
pub proof fn law_unresolved_root_ends_the_load<
    F: Fn(&str, Option<&str>, bool, Option<&HashMap<String, String>>) -> Result<
        Option<String>,
        Option<String>,
    >,
    G: Fn(&str) -> Result<bool, ()>,
    H: Fn(&str) -> Result<String, ()>,
>(run_command: F, file_exists: G, read_file: H, r: Result<Loaded, RunError>)
    requires
        can_run_at(run_command, GIT_REPO_ROOT_COMMAND@, None),
        forall|answer: Result<Option<String>, Option<String>>| #[trigger]
            may_run(run_command, GIT_REPO_ROOT_COMMAND@, None, answer) ==> !names_directory(
                answer,
            ),
    ensures
        load_allowed(run_command, file_exists, read_file),
        load_outcome(run_command, file_exists, read_file, r) ==> r matches Err(
            RunError::RootResolution,
        ),
{
    assert forall|root: String|
        !#[trigger] may_run(run_command, GIT_REPO_ROOT_COMMAND@, None, Ok(Some(root))) by {
        assert(names_directory(Ok(Some(root))));
    }
}

/// What becomes of a run once its configuration text has been parsed: a
/// parse failure ends it with the parser's diagnostic, unchanged.
pub fn accept_config(parsed: Result<ConfigFile, String>) -> (r: Result<ConfigFile, RunError>)
    ensures
        match parsed {
            Ok(config) => r == Ok::<ConfigFile, RunError>(config),
            Err(diagnostic) => r == Err::<ConfigFile, RunError>(
                RunError::ParseError { detail: diagnostic },
            ),
        },
{
    match parsed {
        Ok(config) => Ok(config),
        Err(diagnostic) => Err(RunError::ParseError { detail: diagnostic }),
    }
}

/// What dispatching a hook leads to.
#[derive(Debug)]
pub enum Dispatch {
    /// The hook is not configured: the run has succeeded, with nothing run.
    Succeeded,
    /// One unit per command group is to run; the run awaits them.
    Awaiting { units: Vec<Unit> },
}

/// Whether `units` are the units of `groups`, one each and in order, none
/// of them begun.
pub open spec fn fresh_units(units: Seq<Unit>, groups: Seq<Vec<String>>) -> bool {
    &&& units.len() == groups.len()
    &&& forall|i: int|
        0 <= i < units.len() ==> (#[trigger] units[i])@ == (UnitView {
            commands: texts(groups[i]@),
            cursor: 0,
            failure: None,
        })
}

/// Whether `d` is what dispatching the hook `hook` leads to under the
/// configuration `config`: success at once where the hook has no entry,
/// else one fresh unit for each of its command groups.
pub open spec fn is_dispatch_of(config: ConfigFile, hook: Seq<char>, d: Dispatch) -> bool {
    match d {
        Dispatch::Succeeded => !config.hooks@.contains_key(hook),
        Dispatch::Awaiting { units } => config.hooks@.contains_key(hook) && fresh_units(
            units@,
            config.hooks@[hook]@,
        ),
    }
}

/// Looks the hook up in the configuration. A hook without an entry is a
/// success at once, with no unit and so no process; else there is one unit
/// for each of its command groups.
pub fn dispatch(config: ConfigFile, hook_name: &str) -> (d: Dispatch)
    ensures
        is_dispatch_of(config, hook_name@, d),
{
    let mut config = config;
    match config.take_hook(hook_name) {
        None => Dispatch::Succeeded,
        Some(groups) => {
            let ghost all = groups@;
            let mut units: Vec<Unit> = Vec::new();
            for group in it: groups
                invariant
                    it.seq() == all,
                    units@.len() == it.index(),
                    forall|i: int|
                        0 <= i < units@.len() ==> (#[trigger] units@[i])@ == (UnitView {
                            commands: texts(all[i]@),
                            cursor: 0,
                            failure: None,
                        }),
            {
                units.push(Unit::new(group));
            }
            Dispatch::Awaiting { units }
        },
    }
}

/// The parser can be handed the configuration text `text`.
pub open spec fn can_parse_at<P: Fn(&str) -> Result<ConfigFile, String>>(
    parse_config: P,
    text: Seq<char>,
) -> bool {
    forall|t: &str| t@ == text ==> call_requires(parse_config, (t,))
}

/// The parser may give `answer` when handed the configuration text `text`.
pub open spec fn may_parse<P: Fn(&str) -> Result<ConfigFile, String>>(
    parse_config: P,
    text: Seq<char>,
    answer: Result<ConfigFile, String>,
) -> bool {
    exists|t: &str| t@ == text && call_ensures(parse_config, (t,), answer)
}

/// What a run has in hand once its hook is dispatched.
#[derive(Debug)]
pub struct Started {
    pub root_directory_path: String,
    pub dispatch: Dispatch,
}

/// What the stages of a run up to the dispatch ask of the capabilities:
/// what loading asks, and of the parser that it can be handed each text
/// that loading may return. Where loading fails, nothing is asked of the
/// parser.
pub open spec fn start_allowed<
    F: Fn(&str, Option<&str>, bool, Option<&HashMap<String, String>>) -> Result<
        Option<String>,
        Option<String>,
    >,
    G: Fn(&str) -> Result<bool, ()>,
    H: Fn(&str) -> Result<String, ()>,
    P: Fn(&str) -> Result<ConfigFile, String>,
>(run_command: F, file_exists: G, read_file: H, parse_config: P) -> bool {
    &&& load_allowed(run_command, file_exists, read_file)
    &&& forall|loaded: Loaded| #[trigger]
        load_outcome(run_command, file_exists, read_file, Ok(loaded)) ==> can_parse_at(
            parse_config,
            loaded.config_file_contents@,
        )
}

/// What the stages of a run up to the dispatch may return, given what the
/// capabilities may answer: the error of the load; or, once a text is
/// loaded, the parser's diagnostic as a parse error; or, once that text is
/// parsed, the root directory with the dispatch of the hook.
pub open spec fn start_outcome<
    F: Fn(&str, Option<&str>, bool, Option<&HashMap<String, String>>) -> Result<
        Option<String>,
        Option<String>,
    >,
    G: Fn(&str) -> Result<bool, ()>,
    H: Fn(&str) -> Result<String, ()>,
    P: Fn(&str) -> Result<ConfigFile, String>,
>(
    run_command: F,
    file_exists: G,
    read_file: H,
    parse_config: P,
    hook: Seq<char>,
    r: Result<Started, RunError>,
) -> bool {
    match r {
        Err(error) => {
            ||| load_outcome(run_command, file_exists, read_file, Err(error))
            ||| exists|loaded: Loaded, detail: String|
                load_outcome(run_command, file_exists, read_file, Ok(loaded)) && error
                    == (RunError::ParseError { detail }) && may_parse(
                    parse_config,
                    loaded.config_file_contents@,
                    Err(detail),
                )
        },
        Ok(started) => exists|loaded: Loaded, config: ConfigFile|
            load_outcome(run_command, file_exists, read_file, Ok(loaded))
                && started.root_directory_path == loaded.root_directory_path && may_parse(
                parse_config,
                loaded.config_file_contents@,
                Ok(config),
            ) && is_dispatch_of(config, hook, started.dispatch),
    }
}

/// The stages of a run up to the dispatch, one after the other: locates
/// the root, loads the configuration text, has it parsed, and dispatches
/// the hook. The first stage that fails ends the run with its error, and
/// no capability is called for a later stage; a parse failure ends it
/// with the parser's diagnostic, before any unit exists.
pub fn start<F, G, H, P>(
    run_command: &F,
    file_exists: &G,
    read_file: &H,
    parse_config: &P,
    hook_name: &str,
) -> (r: Result<Started, RunError>)
    where
        F: Fn(&str, Option<&str>, bool, Option<&HashMap<String, String>>) -> Result<
            Option<String>,
            Option<String>,
        >,
        G: Fn(&str) -> Result<bool, ()>,
        H: Fn(&str) -> Result<String, ()>,
        P: Fn(&str) -> Result<ConfigFile, String>,

    requires
        start_allowed(*run_command, *file_exists, *read_file, *parse_config),
    ensures
        start_outcome(*run_command, *file_exists, *read_file, *parse_config, hook_name@, r),
{
    let loaded = match load(run_command, file_exists, read_file) {
        Ok(loaded) => loaded,
        Err(error) => {
            return Err(error);
        },
    };
    let parsed = parse_config(loaded.config_file_contents.as_str());
    assert(may_parse(*parse_config, loaded.config_file_contents@, parsed));
    let config = match accept_config(parsed) {
        Ok(config) => config,
        Err(error) => {
            return Err(error);
        },
    };
    let dispatch = dispatch(config, hook_name);
    Ok(Started { root_directory_path: loaded.root_directory_path, dispatch })
}

/// Where the parser can only fail, a run ends before the dispatch: it
/// fails, and where the configuration text was loaded it fails with a
/// parse error that carries the parser's diagnostic. No unit comes to be,
/// and so no process.
pub proof fn law_unparsable_config_ends_the_run<
    F: Fn(&str, Option<&str>, bool, Option<&HashMap<String, String>>) -> Result<
        Option<String>,
        Option<String>,
    >,
    G: Fn(&str) -> Result<bool, ()>,
    H: Fn(&str) -> Result<String, ()>,
    P: Fn(&str) -> Result<ConfigFile, String>,
>(
    run_command: F,
    file_exists: G,
    read_file: H,
    parse_config: P,
    hook: Seq<char>,
    r: Result<Started, RunError>,
)
    requires
        start_outcome(run_command, file_exists, read_file, parse_config, hook, r),
        forall|text: Seq<char>, answer: Result<ConfigFile, String>|
            may_parse(parse_config, text, answer) ==> answer is Err,
    ensures
        r is Err,
        r matches Err(error) ==> {
            ||| load_outcome(run_command, file_exists, read_file, Err(error))
            ||| error is ParseError
        },
{
}

/// The state of a run that awaits its units: how many have yet to
/// complete, and the first failure observed, if there is one.
pub struct AwaitingView {
    pub pending: nat,
    pub failure: Option<Seq<char>>,
}

/// Where a run that awaits its units stands.
pub enum Verdict {
    /// Units are still running and none has failed.
    Pending,
    /// Every unit has completed without failure.
    Succeeded,
    /// A unit has failed; `detail` is the first failure observed.
    Failed { detail: Seq<char> },
}

/// The state in which a run begins to await `units` units.
pub open spec fn awaiting_start(units: nat) -> AwaitingView {
    AwaitingView { pending: units, failure: None }
}

/// The state after one more unit has completed; `completion` is its
/// failure, `None` where it succeeded. The first failure is kept, and
/// nothing that completes after it is taken into account.
pub open spec fn awaiting_after(state: AwaitingView, completion: Option<Seq<char>>) -> AwaitingView {
    if state.failure is Some {
        state
    } else {
        match completion {
            Some(e) => AwaitingView { failure: Some(e), ..state },
            None => AwaitingView {
                pending: if state.pending > 0 {
                    (state.pending - 1) as nat
                } else {
                    0
                },
                ..state
            },
        }
    }
}

/// The state after the completions `completions`, in the order in which
/// they were observed.
pub open spec fn awaiting_after_all(
    state: AwaitingView,
    completions: Seq<Option<Seq<char>>>,
) -> AwaitingView
    decreases completions.len(),
{
    if completions.len() == 0 {
        state
    } else {
        awaiting_after(awaiting_after_all(state, completions.drop_last()), completions.last())
    }
}

/// Where a run in state `state` stands: failed as soon as a failure has
/// been observed, succeeded once no unit is left, pending otherwise.
pub open spec fn awaiting_verdict(state: AwaitingView) -> Verdict {
    match state.failure {
        Some(e) => Verdict::Failed { detail: e },
        None => if state.pending == 0 {
            Verdict::Succeeded
        } else {
            Verdict::Pending
        },
    }
}

/// The last stage of a run: it collects the completions of the units it
/// dispatched and surfaces the first failure it observes.
#[derive(Debug)]
pub struct Awaiting {
    pending: usize,
    failure: Option<String>,
}

impl View for Awaiting {
    type V = AwaitingView;

    closed spec fn view(&self) -> AwaitingView {
        AwaitingView { pending: self.pending as nat, failure: option_text(self.failure) }
    }
}

impl Awaiting {
    /// The state in which a run begins to await `units` units.
    pub fn new(units: usize) -> (awaiting: Self)
        ensures
            awaiting@ == awaiting_start(units as nat),
    {
        Awaiting { pending: units, failure: None }
    }

    /// Takes note that one more unit has completed with `completion`.
    pub fn observe(&mut self, completion: Result<(), String>)
        ensures
            final(self)@ == awaiting_after(old(self)@, result_failure(completion)),
    {
        if self.failure.is_none() {
            match completion {
                Err(e) => {
                    self.failure = Some(e);
                },
                Ok(_) => {
                    if self.pending > 0 {
                        self.pending = self.pending - 1;
                    }
                },
            }
        }
    }

    /// The result of the run, once there is one: the first failure
    /// observed, as soon as there is one; success, once every unit has
    /// completed without failure; `None` while the run has to wait.
    pub fn verdict(&self) -> (r: Option<Result<(), RunError>>)
        ensures
            match r {
                None => awaiting_verdict(self@) == Verdict::Pending,
                Some(Ok(_)) => awaiting_verdict(self@) == Verdict::Succeeded,
                Some(Err(error)) => error matches RunError::TaskFailure { detail }
                    && awaiting_verdict(self@) == (Verdict::Failed { detail: detail@ }),
            },
    {
        match &self.failure {
            Some(e) => Some(Err(RunError::TaskFailure { detail: e.clone() })),
            None => {
                if self.pending == 0 {
                    Some(Ok(()))
                } else {
                    None
                }
            },
        }
    }
}

/// Whether the completion at place `i` is the first failure of `completions`.
pub open spec fn is_first_failure(completions: Seq<Option<Seq<char>>>, i: int) -> bool {
    &&& 0 <= i < completions.len()
    &&& completions[i] is Some
    &&& forall|j: int| 0 <= j < i ==> completions[j] is None
}

/// A run surfaces the first failure it observes, in the order in which the
/// units complete, and nothing that completes later changes it. Without a
/// failure it counts the completions down.
pub proof fn law_first_observed_failure_wins(units: nat, completions: Seq<Option<Seq<char>>>)
    ensures
        match awaiting_after_all(awaiting_start(units), completions).failure {
            Some(e) => exists|i: int|
                is_first_failure(completions, i) && completions[i] == Some(e),
            None => {
                &&& forall|i: int| 0 <= i < completions.len() ==> completions[i] is None
                &&& awaiting_after_all(awaiting_start(units), completions).pending == if units
                    >= completions.len() {
                    units - completions.len()
                } else {
                    0
                }
            },
        },
    decreases completions.len(),
{
    if completions.len() > 0 {
        let earlier = completions.drop_last();
        law_first_observed_failure_wins(units, earlier);
        let before = awaiting_after_all(awaiting_start(units), earlier);
        match before.failure {
            Some(e) => {
                let i = choose|i: int| is_first_failure(earlier, i) && earlier[i] == Some(e);
                assert(completions[i] == earlier[i]);
                assert forall|j: int| 0 <= j < i implies completions[j] is None by {
                    assert(earlier[j] is None);
                }
                assert(is_first_failure(completions, i));
                assert(completions[i] == Some(e));
            },
            None => {
                let n = completions.len() - 1;
                if completions[n] is Some {
                    assert forall|j: int| 0 <= j < n implies completions[j] is None by {
                        assert(earlier[j] is None);
                    }
                    assert(is_first_failure(completions, n));
                } else {
                    assert forall|j: int| 0 <= j < completions.len() implies completions[j] is None by {
                        if j < n {
                            assert(earlier[j] is None);
                        }
                    }
                }
            },
        }
    }
}

/// Whether a run fails does not depend on the order in which its units
/// complete: where the same completions are observed in two orders, both
/// runs fail or neither does, and where every failing unit fails with the
/// same error, both surface that error.
pub proof fn law_failure_in_any_order(
    units: nat,
    first: Seq<Option<Seq<char>>>,
    second: Seq<Option<Seq<char>>>,
)
    requires
        forall|c: Option<Seq<char>>| first.contains(c) <==> second.contains(c),
    ensures
        awaiting_after_all(awaiting_start(units), first).failure is Some <==> awaiting_after_all(
            awaiting_start(units),
            second,
        ).failure is Some,
        forall|e: Seq<char>|
            (forall|i: int| 0 <= i < first.len() && first[i] is Some ==> first[i] == Some(e))
                && awaiting_after_all(awaiting_start(units), first).failure is Some
                ==> awaiting_after_all(awaiting_start(units), first).failure == Some(e)
                && awaiting_after_all(awaiting_start(units), second).failure == Some(e),
{
    law_first_observed_failure_wins(units, first);
    law_first_observed_failure_wins(units, second);
    let a = awaiting_after_all(awaiting_start(units), first);
    let b = awaiting_after_all(awaiting_start(units), second);
    if a.failure is Some {
        let i = choose|i: int| is_first_failure(first, i) && first[i] == a.failure;
        assert(first.contains(first[i]));
        assert(second.contains(first[i]));
        let k = choose|k: int| 0 <= k < second.len() && second[k] == first[i];
        assert(second[k] is Some);
    }
    if b.failure is Some {
        let i = choose|i: int| is_first_failure(second, i) && second[i] == b.failure;
        assert(second.contains(second[i]));
        assert(first.contains(second[i]));
        let k = choose|k: int| 0 <= k < first.len() && first[k] == second[i];
        assert(first[k] is Some);
    }
    assert forall|e: Seq<char>|
        (forall|i: int| 0 <= i < first.len() && first[i] is Some ==> first[i] == Some(e))
            && a.failure is Some implies a.failure == Some(e) && b.failure == Some(e) by {
        let i = choose|i: int| is_first_failure(first, i) && first[i] == a.failure;
        assert(first[i] == Some(e));
        let k = choose|k: int| is_first_failure(second, k) && second[k] == b.failure;
        assert(second.contains(second[k]));
        assert(first.contains(second[k]));
        let m = choose|m: int| 0 <= m < first.len() && first[m] == second[k];
        assert(first[m] == Some(e));
    }
}

} // verus!
