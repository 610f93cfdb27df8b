use vstd::prelude::*;

verus! {

/// How a failed stage affects the run: `Tolerate` logs and goes on, `Fatal` aborts.
#[derive(Clone, Copy, Debug, PartialEq, Eq, Structural)]
pub enum FailureMode {
    Tolerate,
    Fatal,
}

/// Where a stage's standard input comes from.
#[derive(Clone, Copy, Debug, PartialEq, Eq, Structural)]
pub enum StdinBinding {
    /// The orchestrator's own standard input.
    Inherit,
    /// The captured standard output of the stage spawned just before.
    CapturedFromProducer,
}

/// What happened when one subcommand was attempted.
#[derive(Clone, Copy, Debug, PartialEq, Eq, Structural)]
pub struct StageOutcome {
    pub started: bool,
    pub exit_code: Option<i32>,
    pub succeeded: bool,
}

impl StageOutcome {
    /// `succeeded` holds exactly when the process started and exited with code 0;
    /// a process that never started has no exit code.
    pub open spec fn wf(&self) -> bool {
        &&& self.succeeded == (self.started && self.exit_code == Some(0i32))
        &&& (!self.started ==> self.exit_code is None)
    }

    /// The process could not be spawned or reaped.
    pub fn not_started() -> (r: StageOutcome)
        ensures
            r.wf(),
            !r.started,
            r.exit_code is None,
    {
        StageOutcome { started: false, exit_code: None, succeeded: false }
    }

    /// The process ran to its end; `code` is `None` when it was killed by a signal.
    pub fn exited(code: Option<i32>) -> (r: StageOutcome)
        ensures
            r.wf(),
            r.started,
            r.exit_code == code,
    {
        let succeeded = match code {
            Some(c) => c == 0,
            None => false,
        };
        StageOutcome { started: true, exit_code: code, succeeded }
    }
}


/// One subcommand of the executable, as the orchestrator runs it.
#[derive(Clone, Debug)]
pub struct StageSpec {
    pub name: String,
    pub subcommand: String,
    pub args: Vec<String>,
    pub stdin: StdinBinding,
    /// Whether standard output is captured (to feed the next stage) rather than inherited.
    pub capture_stdout: bool,
    pub failure_mode: FailureMode,
}

/// How the fetch stage is parametrized: clone the configured repositories, or
/// refresh the ones already present.
#[derive(Clone, Debug)]
pub enum Mode {
    Clone { repos: Vec<String> },
    Update,
}

/// The repository identifiers handed to the fetch stage in a mode.
pub open spec fn fetch_args(mode: Mode) -> Seq<String> {
    match mode {
        Mode::Clone { repos } => repos@,
        Mode::Update => Seq::empty(),
    }
}

/// The stage fields that every constructor fixes.
pub open spec fn stage_shape(
    s: StageSpec,
    name: Seq<char>,
    subcommand: Seq<char>,
    args: Seq<String>,
    stdin: StdinBinding,
    capture_stdout: bool,
    failure_mode: FailureMode,
) -> bool {
    &&& s.name@ == name
    &&& s.subcommand@ == subcommand
    &&& s.args@ == args
    &&& s.stdin == stdin
    &&& s.capture_stdout == capture_stdout
    &&& s.failure_mode == failure_mode
}

pub open spec fn is_fetch_stage(s: StageSpec, args: Seq<String>) -> bool {
    stage_shape(s, "Fetch"@, "clone"@, args, StdinBinding::Inherit, false, FailureMode::Tolerate)
}

pub open spec fn is_producer_stage(s: StageSpec) -> bool {
    stage_shape(
        s,
        "Extract"@,
        "logs"@,
        Seq::empty(),
        StdinBinding::Inherit,
        true,
        FailureMode::Tolerate,
    )
}

pub open spec fn is_consumer_stage(s: StageSpec) -> bool {
    stage_shape(
        s,
        "Classify"@,
        "tag"@,
        Seq::empty(),
        StdinBinding::CapturedFromProducer,
        false,
        FailureMode::Tolerate,
    )
}

pub open spec fn is_publish_stage(s: StageSpec) -> bool {
    stage_shape(s, "Publish"@, "build"@, Seq::empty(), StdinBinding::Inherit, false, FailureMode::Fatal)
}

fn make_stage(
    name: &str,
    subcommand: &str,
    args: Vec<String>,
    stdin: StdinBinding,
    capture_stdout: bool,
    failure_mode: FailureMode,
) -> (r: StageSpec)
    ensures
        stage_shape(r, name@, subcommand@, args@, stdin, capture_stdout, failure_mode),
{
    StageSpec {
        name: String::from_str(name),
        subcommand: String::from_str(subcommand),
        args,
        stdin,
        capture_stdout,
        failure_mode,
    }
}

/// The fetch stage for a mode: its arguments are the mode's repository
/// identifiers, in order, and nothing else.
pub fn fetch_stage(mode: &Mode) -> (r: StageSpec)
    ensures
        is_fetch_stage(r, fetch_args(*mode)),
{
    let args = match mode {
        Mode::Clone { repos } => repos.clone(),
        Mode::Update => Vec::new(),
    };
    make_stage("Fetch", "clone", args, StdinBinding::Inherit, false, FailureMode::Tolerate)
}

/// The producer half of the classify stage; its output is captured.
pub fn producer_stage() -> (r: StageSpec)
    ensures
        is_producer_stage(r),
{
    make_stage("Extract", "logs", Vec::new(), StdinBinding::Inherit, true, FailureMode::Tolerate)
}

/// The consumer half of the classify stage; it reads what the producer wrote.
pub fn consumer_stage() -> (r: StageSpec)
    ensures
        is_consumer_stage(r),
{
    make_stage(
        "Classify",
        "tag",
        Vec::new(),
        StdinBinding::CapturedFromProducer,
        false,
        FailureMode::Tolerate,
    )
}

/// The publish stage, the only fatal one.
pub fn publish_stage() -> (r: StageSpec)
    ensures
        is_publish_stage(r),
{
    make_stage("Publish", "build", Vec::new(), StdinBinding::Inherit, false, FailureMode::Fatal)
}

/// The failure policy: abort exactly when a fatal stage did not succeed.
pub fn should_abort(spec: &StageSpec, outcome: &StageOutcome) -> (r: bool)
    ensures
        r == (spec.failure_mode == FailureMode::Fatal && !outcome.succeeded),
{
    match spec.failure_mode {
        FailureMode::Fatal => !outcome.succeeded,
        FailureMode::Tolerate => false,
    }
}

/// Whether the piped classify stage as a whole succeeded: both halves must.
pub fn combined_success(producer: &StageOutcome, consumer: &StageOutcome) -> (r: bool)
    ensures
        r == (producer.succeeded && consumer.succeeded),
{
    producer.succeeded && consumer.succeeded
}


/// Exit code reported when the publish stage ended without one.
pub const NO_EXIT_CODE: i32 = -1;

/// Why a run aborted.
#[derive(Clone, Debug)]
pub enum PipelineError {
    /// The configuration could not be loaded, so nothing is known to clone.
    ConfigLoad { message: String },
    /// The publish stage failed; its exit code, or `NO_EXIT_CODE`.
    PublishFailed { exit_code: i32 },
}

/// Where a run stands.
#[derive(Clone, Copy, Debug, PartialEq, Eq, Structural)]
pub enum Phase {
    NotStarted,
    LoadingConfig,
    Fetching,
    Classifying,
    Publishing,
    Done,
    Aborted,
}

/// What the caller observed after performing the last action.
#[derive(Clone, Debug)]
pub enum Event {
    /// Whether the repository index exists and lists at least one entry.
    Probed { repo_index_nonempty: bool },
    /// The configuration's repository identifiers, in declared order.
    ConfigLoaded { repos: Vec<String> },
    ConfigFailed { message: String },
    /// A non-piped stage (fetch or publish) finished.
    StageDone { outcome: StageOutcome },
    /// Both halves of the piped classify stage finished.
    PipeDone { producer: StageOutcome, consumer: StageOutcome },
}

/// What the caller is to do next.
#[derive(Debug)]
pub enum Action {
    LoadConfig,
    /// Print `banner`, run `stage`, and report `StageDone`.
    Run { banner: String, stage: StageSpec },
    /// Print `banner`; spawn `producer` with captured output, then `consumer` reading
    /// it; wait for the consumer, then for the producer; report `PipeDone`.
    RunPiped { banner: String, producer: StageSpec, consumer: StageSpec },
    /// The run is over with this result.
    Finish { result: Result<(), PipelineError> },
}

/// One transition: the new phase, a warning to print for a tolerated failure,
/// and the next action.
#[derive(Debug)]
pub struct Step {
    pub phase: Phase,
    pub warning: Option<String>,
    pub action: Action,
}

/// Which events a phase waits for.
pub open spec fn accepts_spec(phase: Phase, event: Event) -> bool {
    match phase {
        Phase::NotStarted => event is Probed,
        Phase::LoadingConfig => event is ConfigLoaded || event is ConfigFailed,
        Phase::Fetching => event is StageDone,
        Phase::Classifying => event is PipeDone,
        Phase::Publishing => event is StageDone,
        Phase::Done | Phase::Aborted => false,
    }
}

/// The phase that follows `phase` on `event`.
pub open spec fn next_phase(phase: Phase, event: Event) -> Phase {
    match event {
        Event::Probed { repo_index_nonempty } => if repo_index_nonempty {
            Phase::Fetching
        } else {
            Phase::LoadingConfig
        },
        Event::ConfigLoaded { .. } => Phase::Fetching,
        Event::ConfigFailed { .. } => Phase::Aborted,
        Event::StageDone { outcome } => if phase == Phase::Fetching {
            Phase::Classifying
        } else if outcome.succeeded {
            Phase::Done
        } else {
            Phase::Aborted
        },
        Event::PipeDone { .. } => Phase::Publishing,
    }
}

/// The exit code that a failed publish reports.
pub open spec fn reported_code(outcome: StageOutcome) -> i32 {
    match outcome.exit_code {
        Some(c) => c,
        None => NO_EXIT_CODE,
    }
}

pub open spec fn fetch_banner_text(update: bool) -> Seq<char> {
    if update {
        "=== Step 1/3: Updating repositories ==="@
    } else {
        "=== Step 1/3: Cloning repositories ==="@
    }
}

pub open spec fn classify_banner_text() -> Seq<char> {
    "=== Step 2/3: Tagging bills ==="@
}

pub open spec fn publish_banner_text() -> Seq<char> {
    "=== Step 3/3: Building RSS feeds ==="@
}

pub open spec fn fetch_warning_text() -> Seq<char> {
    "Clone/update had errors (continuing anyway)"@
}

pub open spec fn classify_warning_text() -> Seq<char> {
    "Tagging had errors (continuing anyway)"@
}

/// The action that follows `phase` on `event`.
pub open spec fn action_fits(phase: Phase, event: Event, a: Action) -> bool {
    match event {
        Event::Probed { repo_index_nonempty } => if repo_index_nonempty {
            a matches Action::Run { banner, stage } && banner@ == fetch_banner_text(true)
                && is_fetch_stage(stage, Seq::empty())
        } else {
            a is LoadConfig
        },
        Event::ConfigLoaded { repos } => a matches Action::Run { banner, stage } && banner@
            == fetch_banner_text(false) && is_fetch_stage(stage, repos@),
        Event::ConfigFailed { message } => a matches Action::Finish { result } && result
            matches Err(PipelineError::ConfigLoad { message: m }) && m@ == message@,
        Event::StageDone { outcome } => if phase == Phase::Fetching {
            a matches Action::RunPiped { banner, producer, consumer } && banner@
                == classify_banner_text() && is_producer_stage(producer) && is_consumer_stage(
                consumer,
            )
        } else if outcome.succeeded {
            a matches Action::Finish { result } && result is Ok
        } else {
            a matches Action::Finish { result } && result matches Err(
                PipelineError::PublishFailed { exit_code },
            ) && exit_code == reported_code(outcome)
        },
        Event::PipeDone { .. } => a matches Action::Run { banner, stage } && banner@
            == publish_banner_text() && is_publish_stage(stage),
    }
}

/// The warning printed on the transition: only for a tolerated failure.
pub open spec fn warning_fits(phase: Phase, event: Event, w: Option<String>) -> bool {
    match event {
        Event::StageDone { outcome } => if phase == Phase::Fetching && !outcome.succeeded {
            w matches Some(t) && t@ == fetch_warning_text()
        } else {
            w is None
        },
        Event::PipeDone { producer, consumer } => if !(producer.succeeded && consumer.succeeded) {
            w matches Some(t) && t@ == classify_warning_text()
        } else {
            w is None
        },
        _ => w is None,
    }
}

/// Whether `phase` waits for `event`.
pub fn accepts(phase: Phase, event: &Event) -> (r: bool)
    ensures
        r == accepts_spec(phase, *event),
{
    match phase {
        Phase::NotStarted => matches!(event, Event::Probed { .. }),
        Phase::LoadingConfig => matches!(event, Event::ConfigLoaded { .. } | Event::ConfigFailed { .. }),
        Phase::Fetching => matches!(event, Event::StageDone { .. }),
        Phase::Classifying => matches!(event, Event::PipeDone { .. }),
        Phase::Publishing => matches!(event, Event::StageDone { .. }),
        Phase::Done | Phase::Aborted => false,
    }
}

/// The orchestrator's decision: from the current phase and what was observed,
/// the next phase, an optional warning, and the next action. Fetch and classify
/// failures are tolerated; only a failed publish aborts the run.
pub fn step(phase: Phase, event: Event) -> (r: Step)
    requires
        accepts_spec(phase, event),
    ensures
        r.phase == next_phase(phase, event),
        action_fits(phase, event, r.action),
        warning_fits(phase, event, r.warning),
{
    match event {
        Event::Probed { repo_index_nonempty } => {
            if repo_index_nonempty {
                let stage = fetch_stage(&Mode::Update);
                let banner = String::from_str("=== Step 1/3: Updating repositories ===");
                Step { phase: Phase::Fetching, warning: None, action: Action::Run { banner, stage } }
            } else {
                Step { phase: Phase::LoadingConfig, warning: None, action: Action::LoadConfig }
            }
        },
        Event::ConfigLoaded { repos } => {
            let stage = fetch_stage(&Mode::Clone { repos });
            let banner = String::from_str("=== Step 1/3: Cloning repositories ===");
            Step { phase: Phase::Fetching, warning: None, action: Action::Run { banner, stage } }
        },
        Event::ConfigFailed { message } => Step {
            phase: Phase::Aborted,
            warning: None,
            action: Action::Finish { result: Err(PipelineError::ConfigLoad { message }) },
        },
        Event::StageDone { outcome } => {
            if phase == Phase::Fetching {
                let warning = if outcome.succeeded {
                    None
                } else {
                    Some(String::from_str("Clone/update had errors (continuing anyway)"))
                };
                let banner = String::from_str("=== Step 2/3: Tagging bills ===");
                let producer = producer_stage();
                let consumer = consumer_stage();
                Step {
                    phase: Phase::Classifying,
                    warning,
                    action: Action::RunPiped { banner, producer, consumer },
                }
            } else {
                let finished = publish_stage();
                if should_abort(&finished, &outcome) {
                    let exit_code = match outcome.exit_code {
                        Some(c) => c,
                        None => NO_EXIT_CODE,
                    };
                    Step {
                        phase: Phase::Aborted,
                        warning: None,
                        action: Action::Finish {
                            result: Err(PipelineError::PublishFailed { exit_code }),
                        },
                    }
                } else {
                    Step { phase: Phase::Done, warning: None, action: Action::Finish { result: Ok(()) } }
                }
            }
        },
        Event::PipeDone { producer, consumer } => {
            let warning = if combined_success(&producer, &consumer) {
                None
            } else {
                Some(String::from_str("Tagging had errors (continuing anyway)"))
            };
            let banner = String::from_str("=== Step 3/3: Building RSS feeds ===");
            let stage = publish_stage();
            Step { phase: Phase::Publishing, warning, action: Action::Run { banner, stage } }
        },
    }
}


/// With no repository index, the run first loads the configuration; once it is
/// loaded, the fetch stage receives exactly the configured identifiers, in
/// their declared order, and no other argument.
pub proof fn lemma_clone_mode_passes_configured_repos(repos: Vec<String>)
    ensures
        next_phase(Phase::NotStarted, Event::Probed { repo_index_nonempty: false })
            == Phase::LoadingConfig,
        forall|a: Action|
            action_fits(Phase::NotStarted, Event::Probed { repo_index_nonempty: false }, a)
                ==> a is LoadConfig,
        next_phase(Phase::LoadingConfig, Event::ConfigLoaded { repos }) == Phase::Fetching,
        forall|a: Action|
            action_fits(Phase::LoadingConfig, Event::ConfigLoaded { repos }, a) ==> (a matches Action::Run { stage, .. }
                && stage.subcommand@ == "clone"@ && stage.args@ == repos@),
{
}

/// With a non-empty repository index, the fetch stage runs at once and receives
/// no repository identifier.
pub proof fn lemma_update_mode_passes_no_repos()
    ensures
        next_phase(Phase::NotStarted, Event::Probed { repo_index_nonempty: true })
            == Phase::Fetching,
        forall|a: Action|
            action_fits(Phase::NotStarted, Event::Probed { repo_index_nonempty: true }, a) ==> (a matches Action::Run { stage, .. }
                && stage.subcommand@ == "clone"@ && stage.args@.len() == 0),
{
}

/// Whatever the fetch stage's outcome, the classify stage is attempted next; whatever
/// the classify stage's outcomes, the publish stage is attempted next.
pub proof fn lemma_tolerated_stages_always_advance(
    fetch: StageOutcome,
    producer: StageOutcome,
    consumer: StageOutcome,
)
    ensures
        next_phase(Phase::Fetching, Event::StageDone { outcome: fetch }) == Phase::Classifying,
        forall|a: Action|
            action_fits(Phase::Fetching, Event::StageDone { outcome: fetch }, a) ==> (a matches Action::RunPiped { producer: p, consumer: c, .. }
                && p.subcommand@ == "logs"@ && c.subcommand@ == "tag"@),
        next_phase(Phase::Classifying, Event::PipeDone { producer, consumer })
            == Phase::Publishing,
        forall|a: Action|
            action_fits(Phase::Classifying, Event::PipeDone { producer, consumer }, a) ==> (a matches Action::Run { stage, .. }
                && stage.subcommand@ == "build"@),
{
}

/// The run's result depends on the publish stage alone: exit code 0 finishes with
/// success, a non-zero code aborts with an error that carries that code.
pub proof fn lemma_publish_decides_result(outcome: StageOutcome)
    requires
        outcome.wf(),
        outcome.started,
        outcome.exit_code is Some,
    ensures
        outcome.exit_code == Some(0i32) ==> next_phase(
            Phase::Publishing,
            Event::StageDone { outcome },
        ) == Phase::Done && forall|a: Action|
            action_fits(Phase::Publishing, Event::StageDone { outcome }, a) ==> (a matches Action::Finish { result }
                && result is Ok),
        outcome.exit_code != Some(0i32) ==> next_phase(
            Phase::Publishing,
            Event::StageDone { outcome },
        ) == Phase::Aborted && forall|a: Action|
            action_fits(Phase::Publishing, Event::StageDone { outcome }, a) ==> (a matches Action::Finish { result }
                && result == Err::<(), PipelineError>(
                PipelineError::PublishFailed { exit_code: outcome.exit_code->0 },
            )),
{
}

/// The classify stage counts as failed, and a warning is given, when either half
/// exits with a non-zero code, even if the other exits with zero.
pub proof fn lemma_classify_fails_if_either_half_fails(
    producer: StageOutcome,
    consumer: StageOutcome,
)
    requires
        producer.wf(),
        consumer.wf(),
    ensures
        (producer.exit_code matches Some(c) && c != 0) || (consumer.exit_code matches Some(c) && c != 0)
            ==> forall|w: Option<String>|
            warning_fits(Phase::Classifying, Event::PipeDone { producer, consumer }, w) ==> (w matches Some(t)
                && t@ == classify_warning_text()),
{
}


/// Stages run in one fixed order and none is skipped: a run is done only after
/// publishing, publishes only after classifying, and classifies only after fetching.
pub proof fn lemma_stages_run_in_fixed_order(phase: Phase, event: Event)
    requires
        accepts_spec(phase, event),
    ensures
        next_phase(phase, event) == Phase::Done ==> phase == Phase::Publishing,
        next_phase(phase, event) == Phase::Publishing ==> phase == Phase::Classifying,
        next_phase(phase, event) == Phase::Classifying ==> phase == Phase::Fetching,
        next_phase(phase, event) == Phase::Fetching ==> (phase == Phase::NotStarted || phase
            == Phase::LoadingConfig),
{
}

} // verus!
