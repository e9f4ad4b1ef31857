use deployer_lib::deployment::{
    marked_dir_name, next, run_dir_name, start, Action, Event, Outcome, Snapshot, Stage, Status, Step,
};

#[test]
fn scenario_b_failed_instantiation_keeps_a_debug_snapshot() {
    let first = start();
    assert_eq!(first, Step { stage: Stage::Draft, action: Action::WriteSnapshot(Snapshot::Raw) });
    let run_dir = run_dir_name("mainnet", "2024-01-02_03:04:05");
    assert_eq!(Snapshot::Raw.directory(&run_dir), "mainnet-2024-01-02_03:04:05");
    assert_eq!(Snapshot::Raw.file_name(), "raw-program-config.json");

    let second = next(first.stage, Event::SnapshotWritten).unwrap();
    assert_eq!(second, Step { stage: Stage::Instantiating, action: Action::Instantiate });

    let third = next(second.stage, Event::InstantiationFailed).unwrap();
    assert_eq!(third, Step { stage: Stage::Failed, action: Action::WriteSnapshot(Snapshot::Debug) });
    assert_eq!(Snapshot::Debug.directory(&run_dir), "mainnet-2024-01-02_03:04:05-fail");
    assert_eq!(Snapshot::Debug.file_name(), "debug-program-config.json");

    let last = next(third.stage, Event::SnapshotWritten).unwrap();
    assert_eq!(last.action, Action::Finish(Outcome::DeploymentFailed));
}

#[test]
fn scenario_c_successful_instantiation_is_marked_success() {
    let run_dir = run_dir_name("testnet", "t");
    let s = start();
    let s = next(s.stage, Event::SnapshotWritten).unwrap();
    let s = next(s.stage, Event::InstantiationSucceeded).unwrap();
    assert_eq!(s, Step { stage: Stage::Deployed, action: Action::WriteSnapshot(Snapshot::Instantiated) });
    assert_eq!(Snapshot::Instantiated.directory(&run_dir), "testnet-t-success");
    assert_eq!(Snapshot::Instantiated.file_name(), "instantiated-program-config.json");
    let s = next(s.stage, Event::SnapshotWritten).unwrap();
    assert_eq!(s.action, Action::Finish(Outcome::Deployed));
}

#[test]
fn write_failure_stops_the_run() {
    assert_eq!(
        next(Stage::Draft, Event::WriteFailed),
        Some(Step { stage: Stage::Aborted, action: Action::Finish(Outcome::WriteFailed) })
    );
    assert_eq!(
        next(Stage::Failed, Event::WriteFailed),
        Some(Step { stage: Stage::Aborted, action: Action::Finish(Outcome::WriteFailed) })
    );
}

#[test]
fn out_of_order_events_are_rejected() {
    assert_eq!(next(Stage::Draft, Event::InstantiationSucceeded), None);
    assert_eq!(next(Stage::Instantiating, Event::SnapshotWritten), None);
    assert_eq!(next(Stage::Aborted, Event::SnapshotWritten), None);
    assert_eq!(next(Stage::Deployed, Event::InstantiationFailed), None);
}

#[test]
fn names_of_directories_and_statuses() {
    assert_eq!(Status::Process.word(), "process");
    assert_eq!(Status::Success.word(), "success");
    assert_eq!(Status::Fail.word(), "fail");
    assert_eq!(marked_dir_name("out/x", Status::Fail), "out/x-fail");
    assert_eq!(run_dir_name("local", ""), "local-");
    assert_eq!(Snapshot::Raw.status(), Status::Process);
    assert_eq!(Snapshot::Debug.status(), Status::Fail);
}
