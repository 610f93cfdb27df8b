use govbot::pipeline::{
    accepts, combined_success, consumer_stage, fetch_stage, producer_stage, publish_stage,
    should_abort, step, Action, Event, FailureMode, Mode, Phase, PipelineError, StageOutcome,
    StdinBinding, NO_EXIT_CODE,
};

fn strings(v: &[&str]) -> Vec<String> {
    v.iter().map(|s| s.to_string()).collect()
}

fn expect_run(action: Action) -> (String, govbot::pipeline::StageSpec) {
    match action {
        Action::Run { banner, stage } => (banner, stage),
        other => panic!("expected a stage to run, got {:?}", other),
    }
}

#[test]
fn clone_mode_fetch_gets_configured_repos_in_order() {
    let first = step(Phase::NotStarted, Event::Probed { repo_index_nonempty: false });
    assert_eq!(first.phase, Phase::LoadingConfig);
    assert!(matches!(first.action, Action::LoadConfig));
    let second = step(
        Phase::LoadingConfig,
        Event::ConfigLoaded { repos: strings(&["il", "ca", "ny"]) },
    );
    assert_eq!(second.phase, Phase::Fetching);
    let (banner, stage) = expect_run(second.action);
    assert_eq!(banner, "=== Step 1/3: Cloning repositories ===");
    assert_eq!(stage.subcommand, "clone");
    assert_eq!(stage.args, strings(&["il", "ca", "ny"]));
    assert_eq!(stage.failure_mode, FailureMode::Tolerate);
}

#[test]
fn clone_mode_keeps_the_all_sentinel() {
    let s = step(Phase::LoadingConfig, Event::ConfigLoaded { repos: strings(&["all"]) });
    let (_, stage) = expect_run(s.action);
    assert_eq!(stage.args, strings(&["all"]));
}

#[test]
fn update_mode_fetch_gets_no_repos() {
    let s = step(Phase::NotStarted, Event::Probed { repo_index_nonempty: true });
    assert_eq!(s.phase, Phase::Fetching);
    let (banner, stage) = expect_run(s.action);
    assert_eq!(banner, "=== Step 1/3: Updating repositories ===");
    assert_eq!(stage.subcommand, "clone");
    assert!(stage.args.is_empty());
}

#[test]
fn config_failure_aborts_before_any_stage() {
    let s = step(
        Phase::LoadingConfig,
        Event::ConfigFailed { message: "no such file".to_string() },
    );
    assert_eq!(s.phase, Phase::Aborted);
    match s.action {
        Action::Finish { result: Err(PipelineError::ConfigLoad { message }) } => {
            assert_eq!(message, "no such file")
        }
        other => panic!("unexpected {:?}", other),
    }
}

#[test]
fn classify_follows_every_fetch_outcome() {
    let outcomes = vec![
        StageOutcome::exited(Some(0)),
        StageOutcome::exited(Some(2)),
        StageOutcome::exited(None),
        StageOutcome::not_started(),
    ];
    for outcome in outcomes {
        let s = step(Phase::Fetching, Event::StageDone { outcome });
        assert_eq!(s.phase, Phase::Classifying);
        assert_eq!(s.warning.is_some(), !outcome.succeeded);
        match s.action {
            Action::RunPiped { banner, producer, consumer } => {
                assert_eq!(banner, "=== Step 2/3: Tagging bills ===");
                assert_eq!(producer.subcommand, "logs");
                assert!(producer.capture_stdout);
                assert_eq!(consumer.subcommand, "tag");
                assert_eq!(consumer.stdin, StdinBinding::CapturedFromProducer);
            }
            other => panic!("unexpected {:?}", other),
        }
    }
}

#[test]
fn publish_follows_every_classify_outcome() {
    let all = vec![
        StageOutcome::exited(Some(0)),
        StageOutcome::exited(Some(1)),
        StageOutcome::not_started(),
    ];
    for p in &all {
        for c in &all {
            let s = step(Phase::Classifying, Event::PipeDone { producer: *p, consumer: *c });
            assert_eq!(s.phase, Phase::Publishing);
            let (banner, stage) = expect_run(s.action);
            assert_eq!(banner, "=== Step 3/3: Building RSS feeds ===");
            assert_eq!(stage.subcommand, "build");
            assert_eq!(stage.failure_mode, FailureMode::Fatal);
        }
    }
}

#[test]
fn publish_success_finishes_run_after_earlier_failures() {
    let f = step(Phase::Fetching, Event::StageDone { outcome: StageOutcome::exited(Some(1)) });
    let c = step(
        f.phase,
        Event::PipeDone {
            producer: StageOutcome::not_started(),
            consumer: StageOutcome::exited(Some(1)),
        },
    );
    let p = step(c.phase, Event::StageDone { outcome: StageOutcome::exited(Some(0)) });
    assert_eq!(p.phase, Phase::Done);
    assert!(matches!(p.action, Action::Finish { result: Ok(()) }));
    assert!(p.warning.is_none());
}

#[test]
fn publish_failure_carries_its_exit_code() {
    let p = step(Phase::Publishing, Event::StageDone { outcome: StageOutcome::exited(Some(3)) });
    assert_eq!(p.phase, Phase::Aborted);
    match p.action {
        Action::Finish { result: Err(PipelineError::PublishFailed { exit_code }) } => {
            assert_eq!(exit_code, 3)
        }
        other => panic!("unexpected {:?}", other),
    }
}

#[test]
fn publish_killed_or_not_started_reports_sentinel() {
    for outcome in [StageOutcome::exited(None), StageOutcome::not_started()] {
        let p = step(Phase::Publishing, Event::StageDone { outcome });
        match p.action {
            Action::Finish { result: Err(PipelineError::PublishFailed { exit_code }) } => {
                assert_eq!(exit_code, NO_EXIT_CODE);
                assert_eq!(exit_code, -1);
            }
            other => panic!("unexpected {:?}", other),
        }
    }
}

#[test]
fn classify_fails_when_either_half_fails() {
    let ok = StageOutcome::exited(Some(0));
    let bad = StageOutcome::exited(Some(1));
    assert!(combined_success(&ok, &ok));
    assert!(!combined_success(&bad, &ok));
    assert!(!combined_success(&ok, &bad));
    let s = step(Phase::Classifying, Event::PipeDone { producer: ok, consumer: bad });
    assert_eq!(s.warning.as_deref(), Some("Tagging had errors (continuing anyway)"));
    let s = step(Phase::Classifying, Event::PipeDone { producer: bad, consumer: ok });
    assert!(s.warning.is_some());
    let s = step(Phase::Classifying, Event::PipeDone { producer: ok, consumer: ok });
    assert!(s.warning.is_none());
}

#[test]
fn outcome_success_needs_start_and_zero_code() {
    assert!(StageOutcome::exited(Some(0)).succeeded);
    assert!(!StageOutcome::exited(Some(7)).succeeded);
    assert!(!StageOutcome::exited(None).succeeded);
    let n = StageOutcome::not_started();
    assert!(!n.started && !n.succeeded && n.exit_code.is_none());
}

#[test]
fn only_failed_fatal_stage_aborts() {
    let bad = StageOutcome::exited(Some(1));
    let ok = StageOutcome::exited(Some(0));
    assert!(!should_abort(&fetch_stage(&Mode::Update), &bad));
    assert!(!should_abort(&producer_stage(), &bad));
    assert!(!should_abort(&consumer_stage(), &bad));
    assert!(should_abort(&publish_stage(), &bad));
    assert!(!should_abort(&publish_stage(), &ok));
}

#[test]
fn phases_accept_only_their_events() {
    let done = Event::StageDone { outcome: StageOutcome::exited(Some(0)) };
    assert!(accepts(Phase::NotStarted, &Event::Probed { repo_index_nonempty: true }));
    assert!(!accepts(Phase::NotStarted, &done));
    assert!(accepts(Phase::Fetching, &done));
    assert!(accepts(Phase::Publishing, &done));
    assert!(!accepts(Phase::Classifying, &done));
    assert!(!accepts(Phase::Done, &done));
    assert!(!accepts(Phase::Aborted, &done));
}

#[test]
fn fetch_stage_by_mode() {
    let c = fetch_stage(&Mode::Clone { repos: strings(&["wy"]) });
    assert_eq!(c.args, strings(&["wy"]));
    assert_eq!(c.name, "Fetch");
    assert_eq!(c.stdin, StdinBinding::Inherit);
    assert!(!c.capture_stdout);
    assert!(fetch_stage(&Mode::Update).args.is_empty());
}
