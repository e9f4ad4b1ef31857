use vstd::prelude::*;

verus! {

/// The status a run's output directory is marked with.
#[derive(Clone, Copy, Debug, PartialEq, Eq, Structural)]
pub enum Status {
    Process,
    Success,
    Fail,
}

impl Status {
    pub open spec fn spec_word(self) -> Seq<char> {
        match self {
            Status::Process => "process"@,
            Status::Success => "success"@,
            Status::Fail => "fail"@,
        }
    }

    pub fn word(&self) -> (r: String)
        ensures
            r@ == self.spec_word(),
    {
        match self {
            Status::Process => "process".to_owned(),
            Status::Success => "success".to_owned(),
            Status::Fail => "fail".to_owned(),
        }
    }
}

/// The three files a run may write: the draft before deployment, the deployed
/// program after a success, and the program as it stood when a deployment failed.
#[derive(Clone, Copy, Debug, PartialEq, Eq, Structural)]
pub enum Snapshot {
    Raw,
    Instantiated,
    Debug,
}

impl Snapshot {
    pub open spec fn spec_status(self) -> Status {
        match self {
            Snapshot::Raw => Status::Process,
            Snapshot::Instantiated => Status::Success,
            Snapshot::Debug => Status::Fail,
        }
    }

    pub open spec fn spec_prefix(self) -> Seq<char> {
        match self {
            Snapshot::Raw => "raw"@,
            Snapshot::Instantiated => "instantiated"@,
            Snapshot::Debug => "debug"@,
        }
    }

    pub fn status(&self) -> (r: Status)
        ensures
            r == self.spec_status(),
    {
        match self {
            Snapshot::Raw => Status::Process,
            Snapshot::Instantiated => Status::Success,
            Snapshot::Debug => Status::Fail,
        }
    }

    /// `<prefix>-program-config.json`.
    pub fn file_name(&self) -> (r: String)
        ensures
            r@ == self.spec_prefix() + "-program-config.json"@,
    {
        let mut name = match self {
            Snapshot::Raw => "raw".to_owned(),
            Snapshot::Instantiated => "instantiated".to_owned(),
            Snapshot::Debug => "debug".to_owned(),
        };
        name.append("-program-config.json");
        name
    }

    /// The directory the snapshot goes to: the run's own directory for the draft;
    /// for the others, that directory renamed to carry the outcome.
    pub fn directory(&self, run_dir: &str) -> (r: String)
        ensures
            r@ == snapshot_dir(run_dir@, *self),
    {
        match self {
            Snapshot::Raw => run_dir.to_owned(),
            _ => marked_dir_name(run_dir, self.status()),
        }
    }
}

pub open spec fn spec_marked_dir_name(dir: Seq<char>, status: Status) -> Seq<char> {
    dir + "-"@ + status.spec_word()
}

pub open spec fn snapshot_dir(run_dir: Seq<char>, snapshot: Snapshot) -> Seq<char> {
    match snapshot {
        Snapshot::Raw => run_dir,
        _ => spec_marked_dir_name(run_dir, snapshot.spec_status()),
    }
}

/// `<environment>-<timestamp>`: a fresh directory for each run.
pub fn run_dir_name(environment: &str, timestamp: &str) -> (r: String)
    ensures
        r@ == environment@ + "-"@ + timestamp@,
{
    let mut name = environment.to_owned();
    name.append("-");
    name.append(timestamp);
    name
}

/// `<dir>-<status>`: the run directory once its outcome is known.
pub fn marked_dir_name(dir: &str, status: Status) -> (r: String)
    ensures
        r@ == spec_marked_dir_name(dir@, status),
{
    let mut name = dir.to_owned();
    name.append("-");
    let word = status.word();
    name.append(word.as_str());
    name
}

/// Where a run stands.
#[derive(Clone, Copy, Debug, PartialEq, Eq, Structural)]
pub enum Stage {
    /// The program is built or loaded; its draft is being written.
    Draft,
    /// The draft is on disk; the program manager is deploying it.
    Instantiating,
    /// The deployment succeeded; the deployed program is being recorded.
    Deployed,
    /// The deployment failed; the program as it stood is being recorded.
    Failed,
    /// Writing a snapshot failed; the run stopped.
    Aborted,
}

/// What the outside world reports after carrying out an action.
#[derive(Clone, Copy, Debug, PartialEq, Eq, Structural)]
pub enum Event {
    SnapshotWritten,
    WriteFailed,
    InstantiationSucceeded,
    InstantiationFailed,
}

/// How a run ended.
#[derive(Clone, Copy, Debug, PartialEq, Eq, Structural)]
pub enum Outcome {
    Deployed,
    DeploymentFailed,
    WriteFailed,
}

/// What the outside world has to do next.
#[derive(Clone, Copy, Debug, PartialEq, Eq, Structural)]
pub enum Action {
    WriteSnapshot(Snapshot),
    Instantiate,
    Finish(Outcome),
}

#[derive(Clone, Copy, Debug, PartialEq, Eq, Structural)]
pub struct Step {
    pub stage: Stage,
    pub action: Action,
}

/// The transition table of a run. `None` for an event that cannot follow the
/// action of `stage`.
pub open spec fn spec_next(stage: Stage, event: Event) -> Option<Step> {
    match (stage, event) {
        (Stage::Draft, Event::SnapshotWritten) => Some(
            Step { stage: Stage::Instantiating, action: Action::Instantiate },
        ),
        (Stage::Instantiating, Event::InstantiationSucceeded) => Some(
            Step { stage: Stage::Deployed, action: Action::WriteSnapshot(Snapshot::Instantiated) },
        ),
        (Stage::Instantiating, Event::InstantiationFailed) => Some(
            Step { stage: Stage::Failed, action: Action::WriteSnapshot(Snapshot::Debug) },
        ),
        (Stage::Deployed, Event::SnapshotWritten) => Some(
            Step { stage: Stage::Deployed, action: Action::Finish(Outcome::Deployed) },
        ),
        (Stage::Failed, Event::SnapshotWritten) => Some(
            Step { stage: Stage::Failed, action: Action::Finish(Outcome::DeploymentFailed) },
        ),
        (Stage::Draft, Event::WriteFailed) | (Stage::Deployed, Event::WriteFailed) | (
            Stage::Failed,
            Event::WriteFailed,
        ) => Some(Step { stage: Stage::Aborted, action: Action::Finish(Outcome::WriteFailed) }),
        _ => None,
    }
}

/// A run begins as a draft whose first action is to write the draft.
pub fn start() -> (r: Step)
    ensures
        r == (Step { stage: Stage::Draft, action: Action::WriteSnapshot(Snapshot::Raw) }),
{
    Step { stage: Stage::Draft, action: Action::WriteSnapshot(Snapshot::Raw) }
}

/// Takes the run one step on, given what came of the last action.
pub fn next(stage: Stage, event: Event) -> (r: Option<Step>)
    ensures
        r == spec_next(stage, event),
{
    match (stage, event) {
        (Stage::Draft, Event::SnapshotWritten) => Some(
            Step { stage: Stage::Instantiating, action: Action::Instantiate },
        ),
        (Stage::Instantiating, Event::InstantiationSucceeded) => Some(
            Step { stage: Stage::Deployed, action: Action::WriteSnapshot(Snapshot::Instantiated) },
        ),
        (Stage::Instantiating, Event::InstantiationFailed) => Some(
            Step { stage: Stage::Failed, action: Action::WriteSnapshot(Snapshot::Debug) },
        ),
        (Stage::Deployed, Event::SnapshotWritten) => Some(
            Step { stage: Stage::Deployed, action: Action::Finish(Outcome::Deployed) },
        ),
        (Stage::Failed, Event::SnapshotWritten) => Some(
            Step { stage: Stage::Failed, action: Action::Finish(Outcome::DeploymentFailed) },
        ),
        (Stage::Draft, Event::WriteFailed) | (Stage::Deployed, Event::WriteFailed) | (
            Stage::Failed,
            Event::WriteFailed,
        ) => Some(Step { stage: Stage::Aborted, action: Action::Finish(Outcome::WriteFailed) }),
        _ => None,
    }
}

/// Where a run stands after the outside world reported `events`, one per action;
/// `None` once an event cannot follow, or follows a finished run.
pub open spec fn run(events: Seq<Event>) -> Option<Step>
    decreases events.len(),
{
    if events.len() == 0 {
        Some(Step { stage: Stage::Draft, action: Action::WriteSnapshot(Snapshot::Raw) })
    } else {
        match run(events.drop_last()) {
            Some(s) => if s.action is Finish {
                None
            } else {
                spec_next(s.stage, events.last())
            },
            None => None,
        }
    }
}

proof fn lemma_runs_end_by_three(events: Seq<Event>)
    requires
        events.len() >= 3,
    ensures
        run(events) is Some ==> run(events)->Some_0.action is Finish && events.len() == 3,
    decreases events.len(),
{
    if events.len() > 3 {
        lemma_runs_end_by_three(events.drop_last());
    } else {
        let e1 = events.drop_last();
        let e2 = e1.drop_last();
        let e3 = e2.drop_last();
        assert(e3.len() == 0);
        reveal_with_fuel(run, 4);
    }
}

/// Every run writes its draft before the program manager is called, and ends
/// in one of three ways: deployed, after the draft, a successful instantiation
/// and the deployed snapshot; failed, after the draft, a failed instantiation
/// and the debug snapshot; or stopped by a write that failed.
pub proof fn lemma_deployment_runs(events: Seq<Event>)
    ensures
        run(events) is Some && run(events)->Some_0.action == Action::Instantiate ==> events
            == seq![Event::SnapshotWritten],
        run(events) is Some && run(events)->Some_0.action == Action::Finish(Outcome::Deployed)
            ==> events == seq![
            Event::SnapshotWritten,
            Event::InstantiationSucceeded,
            Event::SnapshotWritten,
        ],
        run(events) is Some && run(events)->Some_0.action == Action::Finish(
            Outcome::DeploymentFailed,
        ) ==> events == seq![
            Event::SnapshotWritten,
            Event::InstantiationFailed,
            Event::SnapshotWritten,
        ],
        run(events) is Some && run(events)->Some_0.action == Action::Finish(Outcome::WriteFailed)
            ==> events.last() == Event::WriteFailed,
{
    if events.len() >= 3 {
        lemma_runs_end_by_three(events);
    }
    if events.len() <= 3 {
        reveal_with_fuel(run, 4);
        if events.len() == 3 {
            assert(events.drop_last().drop_last() =~= seq![events[0]]);
            assert(events.drop_last() =~= seq![events[0], events[1]]);
            assert(events =~= seq![events[0], events[1], events[2]]);
        } else if events.len() == 2 {
            assert(events.drop_last() =~= seq![events[0]]);
            assert(events =~= seq![events[0], events[1]]);
        } else if events.len() == 1 {
            assert(events =~= seq![events[0]]);
        }
    }
}

/// A run whose instantiation fails writes the draft into the run directory,
/// calls the program manager once, writes the debug snapshot into the run
/// directory marked `-fail`, and ends in a deployment failure.
pub proof fn lemma_failed_deployment(run_dir: Seq<char>)
    ensures
        run(seq![]) == Some(
            Step { stage: Stage::Draft, action: Action::WriteSnapshot(Snapshot::Raw) },
        ),
        run(seq![Event::SnapshotWritten]) == Some(
            Step { stage: Stage::Instantiating, action: Action::Instantiate },
        ),
        run(seq![Event::SnapshotWritten, Event::InstantiationFailed]) == Some(
            Step { stage: Stage::Failed, action: Action::WriteSnapshot(Snapshot::Debug) },
        ),
        run(seq![Event::SnapshotWritten, Event::InstantiationFailed, Event::SnapshotWritten])
            == Some(Step { stage: Stage::Failed, action: Action::Finish(Outcome::DeploymentFailed) }),
        snapshot_dir(run_dir, Snapshot::Raw) == run_dir,
        snapshot_dir(run_dir, Snapshot::Debug) == run_dir + "-"@ + "fail"@,
        Snapshot::Raw.spec_prefix() == "raw"@,
        Snapshot::Debug.spec_prefix() == "debug"@,
{
    reveal_with_fuel(run, 4);
    assert(seq![Event::SnapshotWritten].drop_last() =~= seq![]);
    assert(seq![Event::SnapshotWritten, Event::InstantiationFailed].drop_last() =~= seq![
        Event::SnapshotWritten,
    ]);
    assert(seq![Event::SnapshotWritten, Event::InstantiationFailed, Event::SnapshotWritten].drop_last()
        =~= seq![Event::SnapshotWritten, Event::InstantiationFailed]);
}

/// A run whose instantiation succeeds writes the draft into the run directory,
/// calls the program manager once, writes the instantiated program into the run
/// directory marked `-success`, and ends deployed.
pub proof fn lemma_successful_deployment(run_dir: Seq<char>)
    ensures
        run(seq![]) == Some(
            Step { stage: Stage::Draft, action: Action::WriteSnapshot(Snapshot::Raw) },
        ),
        run(seq![Event::SnapshotWritten]) == Some(
            Step { stage: Stage::Instantiating, action: Action::Instantiate },
        ),
        run(seq![Event::SnapshotWritten, Event::InstantiationSucceeded]) == Some(
            Step { stage: Stage::Deployed, action: Action::WriteSnapshot(Snapshot::Instantiated) },
        ),
        run(seq![Event::SnapshotWritten, Event::InstantiationSucceeded, Event::SnapshotWritten])
            == Some(Step { stage: Stage::Deployed, action: Action::Finish(Outcome::Deployed) }),
        snapshot_dir(run_dir, Snapshot::Raw) == run_dir,
        snapshot_dir(run_dir, Snapshot::Instantiated) == run_dir + "-"@ + "success"@,
        Snapshot::Raw.spec_prefix() == "raw"@,
        Snapshot::Instantiated.spec_prefix() == "instantiated"@,
{
    reveal_with_fuel(run, 4);
    assert(seq![Event::SnapshotWritten].drop_last() =~= seq![]);
    assert(seq![Event::SnapshotWritten, Event::InstantiationSucceeded].drop_last() =~= seq![
        Event::SnapshotWritten,
    ]);
    assert(seq![Event::SnapshotWritten, Event::InstantiationSucceeded, Event::SnapshotWritten].drop_last()
        =~= seq![Event::SnapshotWritten, Event::InstantiationSucceeded]);
}

} // verus!
