//! The decisions of bootstrapping the configuration file, as a state machine.
//!
//! The caller performs each action that the machine hands out and reports
//! what came of it as the next event.
use vstd::prelude::*;

use crate::path::{config_dir_path, config_file_path, opt_view, path_config_dir, path_config_file};
use crate::setting::ConfigFolder;
use crate::Error;

verus! {

/// A capability of a configuration value: to write itself out as the default
/// configuration file.
pub trait WriteConfig {
    fn write(&self);
}

/// What sits at the configuration file's path.
#[derive(PartialEq, Eq, Structural, Clone, Copy, Debug)]
pub enum EntryKind {
    Missing,
    File,
    Other,
}

/// Which outcome the machine waits for.
#[derive(PartialEq, Eq, Structural, Clone, Copy, Debug)]
pub enum Stage {
    /// The directory was to be created.
    CreateDir,
    /// The file's path was to be inspected.
    Inspect,
    /// The default configuration was to be written.
    WriteDefault,
    /// Nothing more is to be done.
    Finished,
}

/// The outcome of the last action.
#[derive(PartialEq, Eq, Structural, Clone, Copy, Debug)]
pub enum Event {
    /// The directory and its missing ancestors were created, or were there.
    DirCreated,
    /// The directory could not be created.
    DirCreationFailed,
    /// What was found at the file's path.
    Found(EntryKind),
    /// The default configuration has been written.
    DefaultWritten,
}

/// What the caller is to do next.
#[derive(PartialEq, Eq, Clone, Debug)]
pub enum Action {
    /// Create this directory and all of its missing ancestors.
    CreateDir(String),
    /// Find out what sits at this path.
    Inspect(String),
    /// Open this file for reading and hand it to the user: bootstrapping is done.
    Open(String),
    /// Have the default configuration write itself out.
    WriteDefault,
    /// Stop with this error.
    Fail(Error),
}

/// The spec-level counterpart of an action.
pub enum Step {
    CreateDir(Seq<char>),
    Inspect(Seq<char>),
    Open(Seq<char>),
    WriteDefault,
    Fail(Error),
}

impl View for Action {
    type V = Step;

    open spec fn view(&self) -> Step {
        match self {
            Action::CreateDir(p) => Step::CreateDir(p@),
            Action::Inspect(p) => Step::Inspect(p@),
            Action::Open(p) => Step::Open(p@),
            Action::WriteDefault => Step::WriteDefault,
            Action::Fail(e) => Step::Fail(*e),
        }
    }
}

/// Whether `event` answers the action that `stage` waits on.
pub open spec fn expects(stage: Stage, event: Event) -> bool {
    match stage {
        Stage::CreateDir => event == Event::DirCreated || event == Event::DirCreationFailed,
        Stage::Inspect => event is Found,
        Stage::WriteDefault => event == Event::DefaultWritten,
        Stage::Finished => false,
    }
}

/// The next stage and action after `event`, for a machine whose directory is
/// `dir` and whose file is `file`.
pub open spec fn transition(stage: Stage, event: Event, dir: Seq<char>, file: Seq<char>) -> (
    Stage,
    Step,
) {
    match event {
        Event::DirCreated => (Stage::Inspect, Step::Inspect(file)),
        Event::DirCreationFailed => (Stage::Finished, Step::Fail(Error::DirCreationFailed)),
        Event::Found(EntryKind::File) => (Stage::Finished, Step::Open(file)),
        Event::Found(EntryKind::Other) => (Stage::Finished, Step::Fail(Error::NotAFile)),
        Event::Found(EntryKind::Missing) => (Stage::WriteDefault, Step::WriteDefault),
        Event::DefaultWritten => (Stage::Finished, Step::Fail(Error::ConfigAbsent)),
    }
}

/// One bootstrap of the configuration file.
pub struct Bootstrap {
    dir: String,
    file: String,
    stage: Stage,
}

impl Bootstrap {
    /// The configuration directory's path.
    pub closed spec fn dir_spec(&self) -> Seq<char> {
        self.dir@
    }

    /// The configuration file's path.
    pub closed spec fn file_spec(&self) -> Seq<char> {
        self.file@
    }

    /// The stage the machine is in.
    pub closed spec fn stage_spec(&self) -> Stage {
        self.stage
    }

    /// Resolves the file's path, then the directory's, for `filename`: the
    /// machine starts by having the directory created. Fails as path
    /// resolution does.
    pub fn new(folder: &ConfigFolder, home: &Option<String>, filename: &str) -> (r: Result<
        Bootstrap,
        Error,
    >)
        ensures
            match config_file_path(folder@, opt_view(*home), filename@) {
                Ok(f) => r matches Ok(b) && b.file_spec() == f && config_dir_path(
                    folder@,
                    opt_view(*home),
                ) == Ok::<Seq<char>, Error>(b.dir_spec()) && b.stage_spec() == Stage::CreateDir,
                Err(e) => r == Err::<Bootstrap, Error>(e),
            },
    {
        let file = match path_config_file(folder, home, filename) {
            Ok(f) => f,
            Err(e) => return Err(e),
        };
        let dir = match path_config_dir(folder, home) {
            Ok(d) => d,
            Err(e) => return Err(e),
        };
        Ok(Bootstrap { dir, file, stage: Stage::CreateDir })
    }

    /// The first action: create the configuration directory.
    pub fn start(&self) -> (r: Action)
        requires
            self.stage_spec() == Stage::CreateDir,
        ensures
            r@ == Step::CreateDir(self.dir_spec()),
    {
        Action::CreateDir(self.dir.clone())
    }

    /// The configuration directory's path.
    pub fn dir(&self) -> (r: &String)
        ensures
            r@ == self.dir_spec(),
    {
        &self.dir
    }

    /// The configuration file's path.
    pub fn file(&self) -> (r: &String)
        ensures
            r@ == self.file_spec(),
    {
        &self.file
    }

    /// The stage the machine is in.
    pub fn stage(&self) -> (r: Stage)
        ensures
            r == self.stage_spec(),
    {
        self.stage
    }

    /// Takes the outcome of the last action and gives the next action.
    pub fn step(&mut self, event: Event) -> (r: Action)
        requires
            expects(old(self).stage_spec(), event),
        ensures
            (final(self).stage_spec(), r@) == transition(
                old(self).stage_spec(),
                event,
                old(self).dir_spec(),
                old(self).file_spec(),
            ),
            final(self).dir_spec() == old(self).dir_spec(),
            final(self).file_spec() == old(self).file_spec(),
    {
        match event {
            Event::DirCreated => {
                self.stage = Stage::Inspect;
                Action::Inspect(self.file.clone())
            },
            Event::DirCreationFailed => {
                self.stage = Stage::Finished;
                Action::Fail(Error::DirCreationFailed)
            },
            Event::Found(EntryKind::File) => {
                self.stage = Stage::Finished;
                Action::Open(self.file.clone())
            },
            Event::Found(EntryKind::Other) => {
                self.stage = Stage::Finished;
                Action::Fail(Error::NotAFile)
            },
            Event::Found(EntryKind::Missing) => {
                self.stage = Stage::WriteDefault;
                Action::WriteDefault
            },
            Event::DefaultWritten => {
                self.stage = Stage::Finished;
                Action::Fail(Error::ConfigAbsent)
            },
        }
    }
}

/// Whether `events`, given one after another from `stage`, each answer the
/// action that the machine waits on.
pub open spec fn valid_run(stage: Stage, events: Seq<Event>, dir: Seq<char>, file: Seq<char>) -> bool
    decreases events.len(),
{
    events.len() == 0 || (expects(stage, events[0]) && valid_run(
        transition(stage, events[0], dir, file).0,
        events.drop_first(),
        dir,
        file,
    ))
}

/// The actions that the machine hands out for `events`, given from `stage`.
pub open spec fn run_steps(stage: Stage, events: Seq<Event>, dir: Seq<char>, file: Seq<char>) -> Seq<
    Step,
>
    decreases events.len(),
{
    if events.len() == 0 {
        Seq::empty()
    } else {
        let (next, step) = transition(stage, events[0], dir, file);
        seq![step] + run_steps(next, events.drop_first(), dir, file)
    }
}

/// Every action of a whole bootstrap: the one that starts it, then one for
/// each event.
pub open spec fn bootstrap_steps(events: Seq<Event>, dir: Seq<char>, file: Seq<char>) -> Seq<Step> {
    seq![Step::CreateDir(dir)] + run_steps(Stage::CreateDir, events, dir, file)
}

/// The runs that a bootstrap can take, each one event longer than the last
/// where it can go on.
proof fn lemma_runs(events: Seq<Event>, dir: Seq<char>, file: Seq<char>)
    requires
        valid_run(Stage::CreateDir, events, dir, file),
    ensures
        events.len() <= 3,
        events.len() >= 1 ==> events[0] == Event::DirCreated || events[0] == Event::DirCreationFailed,
        events.len() >= 2 ==> events[0] == Event::DirCreated && events[1] is Found,
        events.len() == 3 ==> events[1] == Event::Found(EntryKind::Missing) && events[2]
            == Event::DefaultWritten,
        bootstrap_steps(events, dir, file) =~= if events.len() == 0 {
            seq![Step::CreateDir(dir)]
        } else if events[0] == Event::DirCreationFailed {
            seq![Step::CreateDir(dir), Step::Fail(Error::DirCreationFailed)]
        } else if events.len() == 1 {
            seq![Step::CreateDir(dir), Step::Inspect(file)]
        } else if events[1] == Event::Found(EntryKind::File) {
            seq![Step::CreateDir(dir), Step::Inspect(file), Step::Open(file)]
        } else if events[1] == Event::Found(EntryKind::Other) {
            seq![Step::CreateDir(dir), Step::Inspect(file), Step::Fail(Error::NotAFile)]
        } else if events.len() == 2 {
            seq![Step::CreateDir(dir), Step::Inspect(file), Step::WriteDefault]
        } else {
            seq![
                Step::CreateDir(dir),
                Step::Inspect(file),
                Step::WriteDefault,
                Step::Fail(Error::ConfigAbsent),
            ]
        },
{
    let steps = bootstrap_steps(events, dir, file);
    if events.len() == 0 {
        assert(run_steps(Stage::CreateDir, events, dir, file) =~= Seq::<Step>::empty());
        assert(steps =~= seq![Step::CreateDir(dir)]);
    } else {
        let e1 = events.drop_first();
        let (s1, a1) = transition(Stage::CreateDir, events[0], dir, file);
        assert(valid_run(s1, e1, dir, file));
        let r1 = run_steps(s1, e1, dir, file);
        assert(run_steps(Stage::CreateDir, events, dir, file) == seq![a1] + r1);
        if e1.len() == 0 {
            assert(r1 =~= Seq::<Step>::empty());
            assert(steps =~= seq![Step::CreateDir(dir), a1]);
        } else {
            assert(e1[0] == events[1]);
            let e2 = e1.drop_first();
            let (s2, a2) = transition(s1, e1[0], dir, file);
            assert(valid_run(s2, e2, dir, file));
            let r2 = run_steps(s2, e2, dir, file);
            assert(r1 == seq![a2] + r2);
            if e2.len() == 0 {
                assert(r2 =~= Seq::<Step>::empty());
                assert(steps =~= seq![Step::CreateDir(dir), a1, a2]);
            } else {
                assert(e2[0] == events[2]);
                let e3 = e2.drop_first();
                let (s3, a3) = transition(s2, e2[0], dir, file);
                assert(valid_run(s3, e3, dir, file));
                let r3 = run_steps(s3, e3, dir, file);
                assert(r2 == seq![a3] + r3);
                if e3.len() > 0 {
                    assert(expects(s3, e3[0]));
                }
                assert(r3 =~= Seq::<Step>::empty());
                assert(steps =~= seq![Step::CreateDir(dir), a1, a2, a3]);
            }
        }
    }
}

/// In every bootstrap the directory is created first, and the file's path is
/// inspected only once the directory is known to exist.
pub proof fn lemma_dir_before_inspect(events: Seq<Event>, dir: Seq<char>, file: Seq<char>)
    requires
        valid_run(Stage::CreateDir, events, dir, file),
    ensures
        bootstrap_steps(events, dir, file)[0] == Step::CreateDir(dir),
        forall|i: int|
            0 <= i < bootstrap_steps(events, dir, file).len() && #[trigger] bootstrap_steps(
                events,
                dir,
                file,
            )[i] is Inspect ==> i == 1 && events[0] == Event::DirCreated,
{
    lemma_runs(events, dir, file);
}

/// Where no configuration file is found, the default is written exactly once,
/// no file is opened, and once it is written the bootstrap stops with
/// `ConfigAbsent`.
pub proof fn lemma_missing_writes_default_once(
    events: Seq<Event>,
    dir: Seq<char>,
    file: Seq<char>,
)
    requires
        valid_run(Stage::CreateDir, events, dir, file),
        events.contains(Event::Found(EntryKind::Missing)),
    ensures
        bootstrap_steps(events, dir, file)[2] == Step::WriteDefault,
        forall|i: int|
            0 <= i < bootstrap_steps(events, dir, file).len() && #[trigger] bootstrap_steps(
                events,
                dir,
                file,
            )[i] is WriteDefault ==> i == 2,
        forall|i: int|
            0 <= i < bootstrap_steps(events, dir, file).len() ==> !(#[trigger] bootstrap_steps(
                events,
                dir,
                file,
            )[i] is Open),
        events.len() == 3 ==> bootstrap_steps(events, dir, file).last() == Step::Fail(
            Error::ConfigAbsent,
        ),
        !valid_run(Stage::CreateDir, events.push(Event::DefaultWritten).push(Event::DirCreated), dir, file),
{
    lemma_runs(events, dir, file);
    let j = choose|j: int| 0 <= j < events.len() && events[j] == Event::Found(EntryKind::Missing);
    assert(j == 1);
    let longer = events.push(Event::DefaultWritten).push(Event::DirCreated);
    if valid_run(Stage::CreateDir, longer, dir, file) {
        lemma_runs(longer, dir, file);
    }
}

/// Where something other than a regular file sits at the file's path, the
/// bootstrap stops with `NotAFile` and opens nothing.
pub proof fn lemma_not_a_file_fails(events: Seq<Event>, dir: Seq<char>, file: Seq<char>)
    requires
        valid_run(Stage::CreateDir, events, dir, file),
        events.contains(Event::Found(EntryKind::Other)),
    ensures
        events.len() == 2,
        bootstrap_steps(events, dir, file).last() == Step::Fail(Error::NotAFile),
        forall|i: int|
            0 <= i < bootstrap_steps(events, dir, file).len() ==> !(#[trigger] bootstrap_steps(
                events,
                dir,
                file,
            )[i] is Open),
{
    lemma_runs(events, dir, file);
}

} // verus!
