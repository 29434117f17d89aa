//! The decisions of a project initialisation, as a state machine.
//!
//! The caller performs each returned [`Action`] (file system, version control,
//! dependency installation) and hands back what happened as an [`Event`]:
//! `Answer` for a question, `Done` for anything else.
use vstd::prelude::*;

verus! {

/// The choices of one initialisation that decide its steps.
#[derive(Clone, Copy, Debug, PartialEq, Eq)]
pub struct InitFlags {
    /// Do not install dependencies from the network.
    pub offline: bool,
    /// Initialise even if the root directory is not empty.
    pub force: bool,
    /// Write editor settings and a remappings file.
    pub vscode: bool,
    /// Use the Vyper variant of the scaffold.
    pub vyper: bool,
    /// Leave version control to the caller.
    pub no_git: bool,
    /// Commit everything once the scaffold stands.
    pub commit: bool,
}

/// Files that are written only where none exists yet.
#[derive(Clone, Copy, Debug, PartialEq, Eq)]
pub enum Guarded {
    /// The project configuration file.
    Config,
    /// The root ignore file of version control.
    Gitignore,
    /// The continuous-integration workflow file.
    Workflow,
}

/// A question about the state of the root that the caller answers.
#[derive(Clone, Copy, Debug, PartialEq, Eq)]
pub enum Query {
    /// Does the root directory hold any entry?
    RootNonEmpty,
    /// Is the root inside a repository?
    InRepo,
    /// Is the repository's working tree clean?
    WorkingTreeClean,
    /// Does this file exist?
    Exists(Guarded),
    /// Is the standard library already present under the library directory?
    StdLibPresent,
}

/// Why an initialisation stops before it writes anything.
#[derive(Clone, Copy, Debug, PartialEq, Eq)]
pub enum InitError {
    /// The root is not empty and no override was given.
    NonEmptyRoot,
    /// A commit was asked for but the working tree holds changes.
    UncleanTree,
}

/// What the caller is to do next.
#[derive(Clone, Copy, Debug, PartialEq, Eq)]
pub enum Action {
    /// Answer a question with `Event::Answer`.
    Ask(Query),
    /// Warn that a non-empty root is initialised because of the override.
    WarnNonEmpty,
    /// Create the source, test and script directories and write the
    /// variant's fixed files over whatever stands there.
    Scaffold,
    /// Write this file; it was reported absent.
    Write(Guarded),
    /// Create a repository at the root.
    GitInit,
    /// Stage everything and commit it with the fixed message.
    CommitAll,
    /// Run the dependency installer; with `add_std` it adds the standard
    /// library, without it it only reconciles what is there.
    Install { add_std: bool },
    /// Write the remappings file and merge the editor settings.
    EditorConfig,
    /// Stop: the initialisation failed with this error.
    Fail(InitError),
    /// Stop: the project is initialised.
    Finish,
}

/// What the caller reports after an action.
#[derive(Clone, Copy, Debug, PartialEq, Eq)]
pub enum Event {
    /// The answer to the last question.
    Answer(bool),
    /// The last action other than a question was carried out.
    Done,
}

/// Where an initialisation stands.
#[derive(Clone, Copy, Debug, PartialEq, Eq)]
pub enum Stage {
    Start,
    AwaitNonEmpty,
    Warning,
    AwaitInRepo,
    AwaitClean,
    Scaffolding,
    AwaitExists(Guarded),
    Writing(Guarded),
    AwaitRepoForInit,
    GitInitialising,
    Committing,
    AwaitStdLib,
    Installing(bool),
    Editing,
    Finished,
    Failed(InitError),
}

/// The action that a stage waits on.
pub open spec fn pending(s: Stage) -> Action {
    match s {
        Stage::Start => Action::Ask(Query::RootNonEmpty),
        Stage::AwaitNonEmpty => Action::Ask(Query::RootNonEmpty),
        Stage::Warning => Action::WarnNonEmpty,
        Stage::AwaitInRepo => Action::Ask(Query::InRepo),
        Stage::AwaitClean => Action::Ask(Query::WorkingTreeClean),
        Stage::Scaffolding => Action::Scaffold,
        Stage::AwaitExists(g) => Action::Ask(Query::Exists(g)),
        Stage::Writing(g) => Action::Write(g),
        Stage::AwaitRepoForInit => Action::Ask(Query::InRepo),
        Stage::GitInitialising => Action::GitInit,
        Stage::Committing => Action::CommitAll,
        Stage::AwaitStdLib => Action::Ask(Query::StdLibPresent),
        Stage::Installing(add) => Action::Install { add_std: add },
        Stage::Editing => Action::EditorConfig,
        Stage::Finished => Action::Finish,
        Stage::Failed(e) => Action::Fail(e),
    }
}

/// Moving to a stage means asking for what it waits on.
pub open spec fn go(s: Stage) -> (Stage, Action) {
    (s, pending(s))
}

/// Before anything is written: a commit into an existing repository needs a
/// clean working tree, unless the override was given.
pub open spec fn precheck(f: InitFlags) -> (Stage, Action) {
    if !f.no_git && f.commit && !f.force {
        go(Stage::AwaitInRepo)
    } else {
        go(Stage::Scaffolding)
    }
}

/// After the configuration file: version control, unless skipped.
pub open spec fn git_phase(f: InitFlags) -> (Stage, Action) {
    if !f.no_git {
        go(Stage::AwaitRepoForInit)
    } else {
        install_phase(f)
    }
}

/// After the workflow file: the commit, if asked for.
pub open spec fn commit_phase(f: InitFlags) -> (Stage, Action) {
    if f.commit {
        go(Stage::Committing)
    } else {
        install_phase(f)
    }
}

/// The standard library is installed unless the run is offline.
pub open spec fn install_phase(f: InitFlags) -> (Stage, Action) {
    if !f.offline {
        go(Stage::AwaitStdLib)
    } else {
        editor_phase(f)
    }
}

/// Editor configuration, if asked for, ends the run.
pub open spec fn editor_phase(f: InitFlags) -> (Stage, Action) {
    if f.vscode {
        go(Stage::Editing)
    } else {
        go(Stage::Finished)
    }
}

/// What follows a guarded file, whether it was written or already there.
pub open spec fn after_guarded(f: InitFlags, g: Guarded) -> (Stage, Action) {
    match g {
        Guarded::Config => git_phase(f),
        Guarded::Gitignore => go(Stage::AwaitExists(Guarded::Workflow)),
        Guarded::Workflow => commit_phase(f),
    }
}

/// The next stage and action, from the flags, the stage and the event.
/// An event of the wrong kind leaves the stage as it is and repeats its action.
pub open spec fn next(f: InitFlags, s: Stage, e: Event) -> (Stage, Action) {
    match (s, e) {
        (Stage::Start, _) => go(Stage::AwaitNonEmpty),
        (Stage::AwaitNonEmpty, Event::Answer(non_empty)) => {
            if !non_empty {
                precheck(f)
            } else if f.force {
                go(Stage::Warning)
            } else {
                go(Stage::Failed(InitError::NonEmptyRoot))
            }
        },
        (Stage::Warning, Event::Done) => precheck(f),
        (Stage::AwaitInRepo, Event::Answer(in_repo)) => {
            if in_repo {
                go(Stage::AwaitClean)
            } else {
                go(Stage::Scaffolding)
            }
        },
        (Stage::AwaitClean, Event::Answer(clean)) => {
            if clean {
                go(Stage::Scaffolding)
            } else {
                go(Stage::Failed(InitError::UncleanTree))
            }
        },
        (Stage::Scaffolding, Event::Done) => go(Stage::AwaitExists(Guarded::Config)),
        (Stage::AwaitExists(g), Event::Answer(exists)) => {
            if exists {
                after_guarded(f, g)
            } else {
                go(Stage::Writing(g))
            }
        },
        (Stage::Writing(g), Event::Done) => after_guarded(f, g),
        (Stage::AwaitRepoForInit, Event::Answer(in_repo)) => {
            if in_repo {
                go(Stage::AwaitExists(Guarded::Gitignore))
            } else {
                go(Stage::GitInitialising)
            }
        },
        (Stage::GitInitialising, Event::Done) => go(Stage::AwaitExists(Guarded::Gitignore)),
        (Stage::Committing, Event::Done) => install_phase(f),
        (Stage::AwaitStdLib, Event::Answer(present)) => go(Stage::Installing(!present)),
        (Stage::Installing(_), Event::Done) => editor_phase(f),
        (Stage::Editing, Event::Done) => go(Stage::Finished),
        _ => go(s),
    }
}

fn go_exec(s: Stage) -> (r: (Stage, Action))
    ensures
        r == go(s),
{
    let a = match s {
        Stage::Start => Action::Ask(Query::RootNonEmpty),
        Stage::AwaitNonEmpty => Action::Ask(Query::RootNonEmpty),
        Stage::Warning => Action::WarnNonEmpty,
        Stage::AwaitInRepo => Action::Ask(Query::InRepo),
        Stage::AwaitClean => Action::Ask(Query::WorkingTreeClean),
        Stage::Scaffolding => Action::Scaffold,
        Stage::AwaitExists(g) => Action::Ask(Query::Exists(g)),
        Stage::Writing(g) => Action::Write(g),
        Stage::AwaitRepoForInit => Action::Ask(Query::InRepo),
        Stage::GitInitialising => Action::GitInit,
        Stage::Committing => Action::CommitAll,
        Stage::AwaitStdLib => Action::Ask(Query::StdLibPresent),
        Stage::Installing(add) => Action::Install { add_std: add },
        Stage::Editing => Action::EditorConfig,
        Stage::Finished => Action::Finish,
        Stage::Failed(e) => Action::Fail(e),
    };
    (s, a)
}

fn precheck_exec(f: InitFlags) -> (r: (Stage, Action))
    ensures
        r == precheck(f),
{
    if !f.no_git && f.commit && !f.force {
        go_exec(Stage::AwaitInRepo)
    } else {
        go_exec(Stage::Scaffolding)
    }
}

fn editor_phase_exec(f: InitFlags) -> (r: (Stage, Action))
    ensures
        r == editor_phase(f),
{
    if f.vscode {
        go_exec(Stage::Editing)
    } else {
        go_exec(Stage::Finished)
    }
}

fn install_phase_exec(f: InitFlags) -> (r: (Stage, Action))
    ensures
        r == install_phase(f),
{
    if !f.offline {
        go_exec(Stage::AwaitStdLib)
    } else {
        editor_phase_exec(f)
    }
}

fn after_guarded_exec(f: InitFlags, g: Guarded) -> (r: (Stage, Action))
    ensures
        r == after_guarded(f, g),
{
    match g {
        Guarded::Config => {
            if !f.no_git {
                go_exec(Stage::AwaitRepoForInit)
            } else {
                install_phase_exec(f)
            }
        },
        Guarded::Gitignore => go_exec(Stage::AwaitExists(Guarded::Workflow)),
        Guarded::Workflow => {
            if f.commit {
                go_exec(Stage::Committing)
            } else {
                install_phase_exec(f)
            }
        },
    }
}

/// The next stage and action; see [`next`].
pub fn next_exec(f: InitFlags, s: Stage, e: Event) -> (r: (Stage, Action))
    ensures
        r == next(f, s, e),
{
    match (s, e) {
        (Stage::Start, _) => go_exec(Stage::AwaitNonEmpty),
        (Stage::AwaitNonEmpty, Event::Answer(non_empty)) => {
            if !non_empty {
                precheck_exec(f)
            } else if f.force {
                go_exec(Stage::Warning)
            } else {
                go_exec(Stage::Failed(InitError::NonEmptyRoot))
            }
        },
        (Stage::Warning, Event::Done) => precheck_exec(f),
        (Stage::AwaitInRepo, Event::Answer(in_repo)) => {
            if in_repo {
                go_exec(Stage::AwaitClean)
            } else {
                go_exec(Stage::Scaffolding)
            }
        },
        (Stage::AwaitClean, Event::Answer(clean)) => {
            if clean {
                go_exec(Stage::Scaffolding)
            } else {
                go_exec(Stage::Failed(InitError::UncleanTree))
            }
        },
        (Stage::Scaffolding, Event::Done) => go_exec(Stage::AwaitExists(Guarded::Config)),
        (Stage::AwaitExists(g), Event::Answer(exists)) => {
            if exists {
                after_guarded_exec(f, g)
            } else {
                go_exec(Stage::Writing(g))
            }
        },
        (Stage::Writing(g), Event::Done) => after_guarded_exec(f, g),
        (Stage::AwaitRepoForInit, Event::Answer(in_repo)) => {
            if in_repo {
                go_exec(Stage::AwaitExists(Guarded::Gitignore))
            } else {
                go_exec(Stage::GitInitialising)
            }
        },
        (Stage::GitInitialising, Event::Done) => go_exec(Stage::AwaitExists(Guarded::Gitignore)),
        (Stage::Committing, Event::Done) => install_phase_exec(f),
        (Stage::AwaitStdLib, Event::Answer(present)) => go_exec(Stage::Installing(!present)),
        (Stage::Installing(_), Event::Done) => editor_phase_exec(f),
        (Stage::Editing, Event::Done) => go_exec(Stage::Finished),
        _ => go_exec(s),
    }
}

/// One default-mode initialisation in progress.
pub struct InitSession {
    pub flags: InitFlags,
    pub stage: Stage,
}

impl InitSession {
    /// A session that has not yet asked anything.
    pub fn new(flags: InitFlags) -> (r: InitSession)
        ensures
            r.flags == flags,
            r.stage == Stage::Start,
    {
        InitSession { flags, stage: Stage::Start }
    }

    /// Takes what the caller reports and returns what it is to do next.
    /// The first call's event is not looked at.
    pub fn step(&mut self, e: Event) -> (a: Action)
        ensures
            final(self).flags == old(self).flags,
            (final(self).stage, a) == next(old(self).flags, old(self).stage, e),
    {
        let (s, a) = next_exec(self.flags, self.stage, e);
        self.stage = s;
        a
    }
}

/// The event with which a caller that answers every question by `oracle`
/// reports back after action `a`.
pub open spec fn respond(a: Action, oracle: spec_fn(Query) -> bool) -> Event {
    match a {
        Action::Ask(q) => Event::Answer(oracle(q)),
        _ => Event::Done,
    }
}

/// The first `n` actions of a run from stage `s` and event `e`, where the
/// caller answers every question by `oracle`.
pub open spec fn run_from(
    f: InitFlags,
    s: Stage,
    e: Event,
    oracle: spec_fn(Query) -> bool,
    n: nat,
) -> Seq<Action>
    decreases n,
{
    if n == 0 {
        Seq::empty()
    } else {
        let (s2, a) = next(f, s, e);
        seq![a] + run_from(f, s2, respond(a, oracle), oracle, (n - 1) as nat)
    }
}

proof fn lemma_next_is_go(f: InitFlags, s: Stage, e: Event)
    ensures
        next(f, s, e).1 == pending(next(f, s, e).0),
{
}

proof fn lemma_failed_stays(f: InitFlags, err: InitError, e: Event, oracle: spec_fn(Query) -> bool, n: nat)
    ensures
        run_from(f, Stage::Failed(err), e, oracle, n) == Seq::new(n, |i: int| Action::Fail(err)),
    decreases n,
{
    if n > 0 {
        lemma_failed_stays(f, err, respond(Action::Fail(err), oracle), oracle, (n - 1) as nat);
        assert(run_from(f, Stage::Failed(err), e, oracle, n) =~= Seq::new(n, |i: int| Action::Fail(err)));
    }
}

/// A root with an entry in it and no override: the run asks whether the
/// root is empty and then only fails; nothing is created or written.
pub proof fn non_empty_root_fails_first(
    f: InitFlags,
    e: Event,
    oracle: spec_fn(Query) -> bool,
    n: nat,
)
    requires
        !f.force,
        oracle(Query::RootNonEmpty),
        n >= 1,
    ensures
        run_from(f, Stage::Start, e, oracle, n) == seq![Action::Ask(Query::RootNonEmpty)]
            + Seq::new((n - 1) as nat, |i: int| Action::Fail(InitError::NonEmptyRoot)),
{
    let err = InitError::NonEmptyRoot;
    let m = (n - 1) as nat;
    if m > 0 {
        lemma_failed_stays(f, err, Event::Done, oracle, (m - 1) as nat);
        assert(run_from(f, Stage::AwaitNonEmpty, Event::Answer(true), oracle, m) =~= seq![
            Action::Fail(err),
        ] + run_from(f, Stage::Failed(err), Event::Done, oracle, (m - 1) as nat));
        assert(run_from(f, Stage::AwaitNonEmpty, Event::Answer(true), oracle, m) =~= Seq::new(
            m,
            |i: int| Action::Fail(err),
        ));
    } else {
        assert(run_from(f, Stage::AwaitNonEmpty, Event::Answer(true), oracle, m) =~= Seq::new(
            m,
            |i: int| Action::Fail(err),
        ));
    }
    assert(run_from(f, Stage::Start, e, oracle, n) =~= seq![Action::Ask(Query::RootNonEmpty)]
        + run_from(f, Stage::AwaitNonEmpty, Event::Answer(true), oracle, m));
}

proof fn lemma_existing_never_written(
    f: InitFlags,
    s: Stage,
    e: Event,
    oracle: spec_fn(Query) -> bool,
    g: Guarded,
    n: nat,
)
    requires
        oracle(Query::Exists(g)),
        s != Stage::Writing(g),
        s == Stage::AwaitExists(g) ==> e == Event::Answer(true),
    ensures
        forall|i: int|
            0 <= i < run_from(f, s, e, oracle, n).len() ==> #[trigger] run_from(
                f,
                s,
                e,
                oracle,
                n,
            )[i] != Action::Write(g),
    decreases n,
{
    if n > 0 {
        let (s2, a) = next(f, s, e);
        lemma_next_is_go(f, s, e);
        let rest = run_from(f, s2, respond(a, oracle), oracle, (n - 1) as nat);
        lemma_existing_never_written(f, s2, respond(a, oracle), oracle, g, (n - 1) as nat);
        assert(run_from(f, s, e, oracle, n) =~= seq![a] + rest);
        assert forall|i: int| 0 <= i < run_from(f, s, e, oracle, n).len() implies #[trigger] run_from(
            f,
            s,
            e,
            oracle,
            n,
        )[i] != Action::Write(g) by {
            if i > 0 {
                assert(run_from(f, s, e, oracle, n)[i] == rest[i - 1]);
            }
        }
    }
}

/// A guarded file that already exists is never written, however long the
/// run: running twice leaves the first run's content in place.
pub proof fn existing_guarded_file_never_written(
    f: InitFlags,
    e: Event,
    oracle: spec_fn(Query) -> bool,
    g: Guarded,
    n: nat,
)
    requires
        oracle(Query::Exists(g)),
    ensures
        forall|i: int|
            0 <= i < run_from(f, Stage::Start, e, oracle, n).len() ==> #[trigger] run_from(
                f,
                Stage::Start,
                e,
                oracle,
                n,
            )[i] != Action::Write(g),
{
    lemma_existing_never_written(f, Stage::Start, e, oracle, g, n);
}

} // verus!
