//! A whole run of the tool: check the host, build the image, start the
//! container, probe its health check, and clean up.
use vstd::prelude::*;
use crate::cleanup::{
    cleanup_error_message, cleanup_inv, cleanup_next, cleanup_start, info_cmd, law_cleanup_inv_kept,
    rm_cmd, Cleanup, CleanupAction, CleanupActionView, CleanupError, CleanupErrorView, CleanupStage,
    CleanupView,
};
use crate::command::{Command, CommandView, Outcome, OutcomeView};
use crate::health::{
    health_error_message, health_inv, health_next, health_start, law_health_bounded,
    law_health_start, HealthAction,
    HealthActionView, HealthCheck, HealthError, HealthErrorView, HealthEvent, HealthEventView,
    HealthStage, HealthView, Probe, ProbeView,
};
use crate::plan::{
    build_cmd, build_command, container_name, container_name_for, dockerignore_for,
    dockerignore_path, health_url, health_url_for, image_id_cmd, image_id_command, info_command,
    logs_cmd, logs_command, netstat_cmd, netstat_command, parent_dir, path_parent, port_in_use,
    port_taken, rm_command, run_cmd, run_command, version_cmd, version_command,
};
use crate::report::{
    banner, emit_all, emit_banner, emit_say, emit_warn, plain, say, say_with, tinted, views, warn,
    yellow, Hue, Line, LineView,
};
use crate::text::{append, decimal, decimal_string, lemma_trimmed_idempotent, trim, trimmed};

verus! {

// ---------------------------------------------------------------------------
// Settings
// ---------------------------------------------------------------------------

/// What a run is asked to do.
pub struct Settings {
    /// The Dockerfile; its directory is the build context.
    pub dockerfile_path: String,
    /// Seconds the image build may take.
    pub build_timeout: u64,
    /// Only build the image: no container, no health check, no cleanup.
    pub hot_fix: bool,
    /// The path of the health-check endpoint.
    pub health_check_path: String,
    /// The port the container listens on.
    pub port: u16,
    /// Seconds each health-check request may take.
    pub health_check_timeout: u64,
    /// How many health-check requests to make at most.
    pub health_check_interval: u32,
    /// The image to build.
    pub image_name: String,
}

/// The mathematical content of [`Settings`].
pub struct SettingsView {
    pub dockerfile_path: Seq<char>,
    pub build_timeout: u64,
    pub hot_fix: bool,
    pub health_check_path: Seq<char>,
    pub port: u16,
    pub health_check_timeout: u64,
    pub health_check_interval: u32,
    pub image_name: Seq<char>,
}

impl View for Settings {
    type V = SettingsView;

    open spec fn view(&self) -> SettingsView {
        SettingsView {
            dockerfile_path: self.dockerfile_path@,
            build_timeout: self.build_timeout,
            hot_fix: self.hot_fix,
            health_check_path: self.health_check_path@,
            port: self.port,
            health_check_timeout: self.health_check_timeout,
            health_check_interval: self.health_check_interval,
            image_name: self.image_name@,
        }
    }
}

// ---------------------------------------------------------------------------
// Failures
// ---------------------------------------------------------------------------

/// Why a run failed.
pub enum Failure {
    /// An operation could not be carried out: what was being done, and why.
    Context { context: String, cause: String },
    /// The Dockerfile path has no parent directory.
    InvalidDockerfilePath(String),
    /// There is no Dockerfile at this path.
    DockerfileNotFound(String),
    /// An input or output error, as reported.
    Io(String),
    /// The build took longer than this many seconds.
    BuildTimedOut(u64),
    /// The build exited with this status.
    BuildFailed(String),
    /// The built image's id could not be found.
    ImageIdMissing,
    /// The host port is already taken.
    PortInUse(u16),
    /// `docker run` printed no container id.
    NoContainerId,
    /// The health check failed.
    Health(HealthError),
    /// The cleanup failed.
    Cleanup(CleanupError),
    /// The test failed and the cleanup after it succeeded.
    StartFailed { container: String, reason: String },
}

/// The mathematical content of a [`Failure`].
pub enum FailureView {
    Context { context: Seq<char>, cause: Seq<char> },
    InvalidDockerfilePath(Seq<char>),
    DockerfileNotFound(Seq<char>),
    Io(Seq<char>),
    BuildTimedOut(u64),
    BuildFailed(Seq<char>),
    ImageIdMissing,
    PortInUse(u16),
    NoContainerId,
    Health(HealthErrorView),
    Cleanup(CleanupErrorView),
    StartFailed { container: Seq<char>, reason: Seq<char> },
}

impl View for Failure {
    type V = FailureView;

    open spec fn view(&self) -> FailureView {
        match self {
            Failure::Context { context, cause } => FailureView::Context {
                context: context@,
                cause: cause@,
            },
            Failure::InvalidDockerfilePath(p) => FailureView::InvalidDockerfilePath(p@),
            Failure::DockerfileNotFound(p) => FailureView::DockerfileNotFound(p@),
            Failure::Io(m) => FailureView::Io(m@),
            Failure::BuildTimedOut(t) => FailureView::BuildTimedOut(*t),
            Failure::BuildFailed(s) => FailureView::BuildFailed(s@),
            Failure::ImageIdMissing => FailureView::ImageIdMissing,
            Failure::PortInUse(p) => FailureView::PortInUse(*p),
            Failure::NoContainerId => FailureView::NoContainerId,
            Failure::Health(e) => FailureView::Health(e@),
            Failure::Cleanup(e) => FailureView::Cleanup(e@),
            Failure::StartFailed { container, reason } => FailureView::StartFailed {
                container: container@,
                reason: reason@,
            },
        }
    }
}

/// The message a failure is reported with.
pub open spec fn failure_message(f: FailureView) -> Seq<char> {
    match f {
        FailureView::Context { context, .. } => context,
        FailureView::InvalidDockerfilePath(p) => "Invalid Dockerfile path: "@ + p,
        FailureView::DockerfileNotFound(p) => "Dockerfile not found at "@ + p,
        FailureView::Io(m) => m,
        FailureView::BuildTimedOut(t) => "Docker build timed out after "@ + decimal(t as nat)
            + " seconds"@,
        FailureView::BuildFailed(s) => "Docker build failed with status: "@ + s,
        FailureView::ImageIdMissing => "Failed to get image ID"@,
        FailureView::PortInUse(p) => "Port "@ + decimal(p as nat) + " is already in use"@,
        FailureView::NoContainerId => "Failed to start container: no container ID returned"@,
        FailureView::Health(e) => health_error_message(e),
        FailureView::Cleanup(e) => cleanup_error_message(e),
        FailureView::StartFailed { container, reason } => "Failed to start container "@
            + container + ": "@ + reason,
    }
}

/// The error underneath a failure's message, where there is one.
pub open spec fn failure_cause(f: FailureView) -> Option<Seq<char>> {
    match f {
        FailureView::Context { cause, .. } => Some(cause),
        FailureView::Cleanup(CleanupErrorView::Context { cause, .. }) => Some(cause),
        _ => None,
    }
}

impl Failure {
    /// The message this failure is reported with.
    pub fn message(&self) -> (m: String)
        ensures
            m@ == failure_message(self@),
    {
        match self {
            Failure::Context { context, .. } => context.clone(),
            Failure::InvalidDockerfilePath(p) => {
                let mut m = String::from_str("Invalid Dockerfile path: ");
                append(&mut m, p.as_str());
                m
            },
            Failure::DockerfileNotFound(p) => {
                let mut m = String::from_str("Dockerfile not found at ");
                append(&mut m, p.as_str());
                m
            },
            Failure::Io(e) => e.clone(),
            Failure::BuildTimedOut(t) => {
                let mut m = String::from_str("Docker build timed out after ");
                append(&mut m, decimal_string(*t).as_str());
                append(&mut m, " seconds");
                m
            },
            Failure::BuildFailed(s) => {
                let mut m = String::from_str("Docker build failed with status: ");
                append(&mut m, s.as_str());
                m
            },
            Failure::ImageIdMissing => String::from_str("Failed to get image ID"),
            Failure::PortInUse(p) => {
                let mut m = String::from_str("Port ");
                append(&mut m, decimal_string(*p as u64).as_str());
                append(&mut m, " is already in use");
                m
            },
            Failure::NoContainerId => String::from_str(
                "Failed to start container: no container ID returned",
            ),
            Failure::Health(e) => e.message(),
            Failure::Cleanup(e) => e.message(),
            Failure::StartFailed { container, reason } => {
                let mut m = String::from_str("Failed to start container ");
                append(&mut m, container.as_str());
                append(&mut m, ": ");
                append(&mut m, reason.as_str());
                m
            },
        }
    }

    /// The error underneath the message, where there is one.
    pub fn cause(&self) -> (c: Option<String>)
        ensures
            match c {
                Some(t) => failure_cause(self@) == Some(t@),
                None => failure_cause(self@) is None,
            },
    {
        match self {
            Failure::Context { cause, .. } => Some(cause.clone()),
            Failure::Cleanup(CleanupError::Context { cause, .. }) => Some(cause.clone()),
            _ => None,
        }
    }
}

// ---------------------------------------------------------------------------
// Events and actions
// ---------------------------------------------------------------------------

/// How an image build ended.
pub enum BuildEnd {
    /// The build could not be started.
    NotStarted(String),
    /// The build did not end within its timeout.
    TimedOut,
    /// Waiting for the build failed.
    WaitFailed(String),
    /// The build exited; `status` is its exit status as displayed.
    Exited { success: bool, status: String },
}

/// The mathematical content of a [`BuildEnd`].
pub enum BuildEndView {
    NotStarted(Seq<char>),
    TimedOut,
    WaitFailed(Seq<char>),
    Exited { success: bool, status: Seq<char> },
}

impl View for BuildEnd {
    type V = BuildEndView;

    open spec fn view(&self) -> BuildEndView {
        match self {
            BuildEnd::NotStarted(m) => BuildEndView::NotStarted(m@),
            BuildEnd::TimedOut => BuildEndView::TimedOut,
            BuildEnd::WaitFailed(m) => BuildEndView::WaitFailed(m@),
            BuildEnd::Exited { success, status } => BuildEndView::Exited {
                success: *success,
                status: status@,
            },
        }
    }
}

/// What the host reports back after carrying out an action.
pub enum Event {
    /// The host's resources have been checked.
    ResourcesChecked,
    /// The command asked for has run, or could not start.
    Ran(Outcome),
    /// Whether the file asked about exists.
    Exists(bool),
    /// The contents of the file asked for, or the error reading it.
    Read(Result<String, String>),
    /// How the build ended.
    Built(BuildEnd),
    /// The pause asked for is over.
    Slept,
    /// What came of the health-check request.
    Probed(Probe),
}

/// The mathematical content of an [`Event`].
pub enum EventView {
    ResourcesChecked,
    Ran(OutcomeView),
    Exists(bool),
    Read(Result<Seq<char>, Seq<char>>),
    Built(BuildEndView),
    Slept,
    Probed(ProbeView),
}

impl View for Event {
    type V = EventView;

    open spec fn view(&self) -> EventView {
        match self {
            Event::ResourcesChecked => EventView::ResourcesChecked,
            Event::Ran(o) => EventView::Ran(o@),
            Event::Exists(b) => EventView::Exists(*b),
            Event::Read(Ok(t)) => EventView::Read(Ok(t@)),
            Event::Read(Err(e)) => EventView::Read(Err(e@)),
            Event::Built(b) => EventView::Built(b@),
            Event::Slept => EventView::Slept,
            Event::Probed(p) => EventView::Probed(p@),
        }
    }
}

/// What the run asks the host to do next.
pub enum Action {
    /// Report the host's disk space and memory.
    CheckResources,
    /// Run a command and capture its output.
    Run(Command),
    /// Tell whether a file exists.
    CheckFile(String),
    /// Read a file.
    ReadFile(String),
    /// Run the build command, showing its output as it comes, and wait for
    /// it at most `timeout_secs` seconds.
    Build { command: Command, timeout_secs: u64 },
    /// Wait this many seconds.
    Sleep(u64),
    /// Send a GET request to `url`, waiting at most `timeout_secs` seconds.
    Probe { url: String, timeout_secs: u64 },
    /// The run is over.
    Exit(Result<(), Failure>),
}

/// The mathematical content of an [`Action`].
pub enum ActionView {
    CheckResources,
    Run(CommandView),
    CheckFile(Seq<char>),
    ReadFile(Seq<char>),
    Build { command: CommandView, timeout_secs: u64 },
    Sleep(u64),
    Probe { url: Seq<char>, timeout_secs: u64 },
    Exit(Result<(), FailureView>),
}

impl View for Action {
    type V = ActionView;

    open spec fn view(&self) -> ActionView {
        match self {
            Action::CheckResources => ActionView::CheckResources,
            Action::Run(c) => ActionView::Run(c@),
            Action::CheckFile(p) => ActionView::CheckFile(p@),
            Action::ReadFile(p) => ActionView::ReadFile(p@),
            Action::Build { command, timeout_secs } => ActionView::Build {
                command: command@,
                timeout_secs: *timeout_secs,
            },
            Action::Sleep(s) => ActionView::Sleep(*s),
            Action::Probe { url, timeout_secs } => ActionView::Probe {
                url: url@,
                timeout_secs: *timeout_secs,
            },
            Action::Exit(Ok(())) => ActionView::Exit(Ok(())),
            Action::Exit(Err(f)) => ActionView::Exit(Err(f@)),
        }
    }
}

// ---------------------------------------------------------------------------
// The machine
// ---------------------------------------------------------------------------

/// Where a run stands: what it waits for.
#[derive(Clone, Copy, Debug, PartialEq, Eq, Structural)]
pub enum Stage {
    Resources,
    DockerVersion,
    DockerInfo,
    DockerfileCheck,
    IgnoreCheck,
    IgnoreRead,
    Building,
    ImageId,
    PortCheck,
    RemoveStale,
    StartContainer,
    WarmUp,
    Health,
    FetchLogs,
    CleanupAfterSuccess,
    CleanupAfterFailure,
    Finished,
}

/// A run in progress.
pub struct Session {
    settings: Settings,
    container: String,
    context: String,
    url: String,
    image_id: String,
    reason: String,
    stage: Stage,
    health: Option<HealthCheck>,
    cleanup: Option<Cleanup>,
}

/// The mathematical content of a [`Session`].
pub struct SessionView {
    pub settings: SettingsView,
    /// The container's name.
    pub container: Seq<char>,
    /// The build context.
    pub context: Seq<char>,
    /// The health-check URL.
    pub url: Seq<char>,
    /// The id of the built image, once known.
    pub image_id: Seq<char>,
    /// The message of the failure being handled, once the test failed.
    pub reason: Seq<char>,
    pub stage: Stage,
    pub health: Option<HealthView>,
    pub cleanup: Option<CleanupView>,
}

impl View for Session {
    type V = SessionView;

    closed spec fn view(&self) -> SessionView {
        SessionView {
            settings: self.settings@,
            container: self.container@,
            context: self.context@,
            url: self.url@,
            image_id: self.image_id@,
            reason: self.reason@,
            stage: self.stage,
            health: match self.health {
                Some(h) => Some(h@),
                None => None,
            },
            cleanup: match self.cleanup {
                Some(c) => Some(c@),
                None => None,
            },
        }
    }
}

/// The stages a hot-fix run can be in.
pub open spec fn hot_fix_stage(stage: Stage) -> bool {
    stage == Stage::Resources || stage == Stage::DockerVersion || stage == Stage::DockerInfo
        || stage == Stage::Building || stage == Stage::ImageId || stage == Stage::Finished
}

/// The run's invariant.
pub open spec fn session_inv(s: SessionView) -> bool {
    &&& s.container == container_name_for(s.settings.image_name)
    &&& s.url == health_url_for(s.settings.health_check_path)
    &&& s.settings.hot_fix ==> hot_fix_stage(s.stage)
    &&& s.stage == Stage::Health ==> (s.health matches Some(h) && health_inv(h) && h.stage
        != HealthStage::Finished)
    &&& (s.stage == Stage::CleanupAfterSuccess || s.stage == Stage::CleanupAfterFailure)
        ==> (s.cleanup matches Some(c) && cleanup_inv(c) && c.stage != CleanupStage::Finished)
}

/// Whether the run, in state `s`, waits for the event `e`.
pub open spec fn session_awaits(s: SessionView, e: EventView) -> bool {
    match s.stage {
        Stage::Resources => e is ResourcesChecked,
        Stage::DockerfileCheck | Stage::IgnoreCheck => e is Exists,
        Stage::IgnoreRead => e is Read,
        Stage::Building => e is Built,
        Stage::WarmUp => e is Slept,
        Stage::Health => match s.health {
            Some(h) => match h.stage {
                HealthStage::Probing => e is Probed,
                HealthStage::Pausing => e is Slept,
                HealthStage::Finished => false,
            },
            None => false,
        },
        Stage::Finished => false,
        _ => e is Ran,
    }
}

/// The state, lines and action after one step.
pub type SessionStep = (SessionView, Seq<LineView>, ActionView);

/// Prepends `lines` to the lines of a step.
pub open spec fn after(lines: Seq<LineView>, st: SessionStep) -> SessionStep {
    (st.0, lines + st.1, st.2)
}

/// In state `s`, move to `stage` and do `a`.
pub open spec fn go(s: SessionView, stage: Stage, lines: Seq<LineView>, a: ActionView) -> SessionStep {
    (SessionView { stage, ..s }, lines, a)
}

/// End the run with `r`.
pub open spec fn exit(s: SessionView, r: Result<(), FailureView>) -> SessionStep {
    (SessionView { stage: Stage::Finished, ..s }, seq![], ActionView::Exit(r))
}

/// The step for an event the run does not wait for; it changes nothing.
pub open spec fn unchanged(s: SessionView) -> SessionStep {
    (s, seq![], ActionView::CheckResources)
}

/// A yellow line.
pub open spec fn y(label: Seq<char>) -> LineView {
    say(Some(Hue::Yellow), label)
}

/// A yellow label with a detail.
pub open spec fn yd(label: Seq<char>, detail: Seq<char>) -> LineView {
    say_with(Some(Hue::Yellow), label, detail)
}

/// An uncoloured line.
pub open spec fn p(text: Seq<char>) -> LineView {
    say(None, text)
}

/// The first lines and action of a run with the settings `settings`.
pub open spec fn session_start(settings: SettingsView) -> SessionStep {
    (
        SessionView {
            settings,
            container: container_name_for(settings.image_name),
            context: seq![],
            url: health_url_for(settings.health_check_path),
            image_id: seq![],
            reason: seq![],
            stage: Stage::Resources,
            health: None,
            cleanup: None,
        },
        seq![y("Starting Docker test script..."@)],
        ActionView::CheckResources,
    )
}

/// Start building the image.
pub open spec fn begin_build(s: SessionView) -> SessionStep {
    go(
        s,
        Stage::Building,
        seq![yd("Starting Docker image build for:"@, s.settings.image_name)],
        ActionView::Build {
            command: build_cmd(s.settings.image_name, s.settings.dockerfile_path, s.context),
            timeout_secs: s.settings.build_timeout,
        },
    )
}

/// The Docker daemon has answered: find the build context and begin.
pub open spec fn prepare(s: SessionView) -> SessionStep {
    match path_parent(s.settings.dockerfile_path) {
        None => exit(s, Err(FailureView::InvalidDockerfilePath(s.settings.dockerfile_path))),
        Some(context) => {
            let s1 = SessionView { context, ..s };
            if s.settings.hot_fix {
                after(
                    seq![
                        banner("BUILD IMAGE"@),
                        y("Hot-fix mode: Building image only, skipping tests..."@),
                    ],
                    begin_build(s1),
                )
            } else {
                go(
                    s1,
                    Stage::DockerfileCheck,
                    seq![banner("BUILD IMAGE"@)],
                    ActionView::CheckFile(s.settings.dockerfile_path),
                )
            }
        },
    }
}

/// The test failed, or in hot-fix mode the build failed, with `f`.
pub open spec fn fail(s: SessionView, f: FailureView) -> SessionStep {
    if s.settings.hot_fix {
        exit(s, Err(f))
    } else {
        let head = warn(
            Some(Hue::Red),
            "Container failed to start (\""@ + s.settings.health_check_path
                + " did not return 200OK\"): "@ + failure_message(f),
        );
        let s1 = SessionView { reason: failure_message(f), ..s };
        if s.container.len() > 0 {
            go(
                s1,
                Stage::FetchLogs,
                seq![head, y("Fetching container logs for:"@), p(s.container)],
                ActionView::Run(logs_cmd(s.container)),
            )
        } else {
            after(seq![head], after_logs(s1))
        }
    }
}

/// The logs of a failed container are shown: clean up.
pub open spec fn after_logs(s: SessionView) -> SessionStep {
    let (c, lines, a) = cleanup_start(seq![], s.container, s.settings.image_name);
    after(
        seq![warn(Some(Hue::Red), "Container failed to start"@), banner("CLEANUP"@)] + lines,
        lift_cleanup(SessionView { stage: Stage::CleanupAfterFailure, cleanup: Some(c), ..s }, a),
    )
}

/// The run's step for the cleanup's action `a`.
pub open spec fn lift_cleanup(s: SessionView, a: CleanupActionView) -> SessionStep {
    match a {
        CleanupActionView::Run(c) => (s, seq![], ActionView::Run(c)),
        CleanupActionView::Done(Err(e)) => exit(s, Err(FailureView::Cleanup(e))),
        CleanupActionView::Done(Ok(())) => if s.stage == Stage::CleanupAfterSuccess {
            after(
                seq![
                    say(
                        Some(Hue::Green),
                        "Container started successfully and "@ + s.settings.health_check_path
                            + " endpoint returned 200 OK"@,
                    ),
                ],
                exit(s, Ok(())),
            )
        } else {
            exit(
                s,
                Err(FailureView::StartFailed { container: s.container, reason: s.reason }),
            )
        },
    }
}

/// The run's step for the health check's action `a`.
pub open spec fn lift_health(s: SessionView, a: HealthActionView) -> SessionStep {
    match a {
        HealthActionView::Probe { url, timeout_secs } => (
            s,
            seq![],
            ActionView::Probe { url, timeout_secs },
        ),
        HealthActionView::Sleep { secs } => (s, seq![], ActionView::Sleep(secs)),
        HealthActionView::Done(Err(e)) => fail(s, FailureView::Health(e)),
        HealthActionView::Done(Ok(())) => {
            let (c, lines, ca) = cleanup_start(s.image_id, s.container, s.settings.image_name);
            after(
                seq![banner("CLEANUP"@)] + lines,
                lift_cleanup(
                    SessionView { stage: Stage::CleanupAfterSuccess, cleanup: Some(c), ..s },
                    ca,
                ),
            )
        },
    }
}

/// One step of a run: the next state, the lines to print and the next
/// action, for the event `e` in the state `s`.
pub open spec fn session_next(s: SessionView, e: EventView) -> SessionStep {
    let st = s.settings;
    match (s.stage, e) {
        (Stage::Resources, EventView::ResourcesChecked) => go(
            s,
            Stage::DockerVersion,
            seq![],
            ActionView::Run(version_cmd()),
        ),
        (Stage::DockerVersion, EventView::Ran(OutcomeView::NotRun { error })) => exit(
            s,
            Err(FailureView::Context { context: "Failed to run docker version"@, cause: error }),
        ),
        (Stage::DockerVersion, EventView::Ran(OutcomeView::Ran { stdout, stderr, .. })) => go(
            s,
            Stage::DockerInfo,
            seq![y("Docker version:"@), p(stdout)] + if stderr.len() > 0 {
                seq![say(Some(Hue::Red), "Docker version stderr:"@), p(stderr)]
            } else {
                seq![]
            },
            ActionView::Run(info_cmd()),
        ),
        (Stage::DockerInfo, EventView::Ran(OutcomeView::NotRun { error })) => exit(
            s,
            Err(FailureView::Context { context: "Failed to run docker info"@, cause: error }),
        ),
        (Stage::DockerInfo, EventView::Ran(OutcomeView::Ran { stdout, .. })) => after(
            seq![y("Docker info:"@), p(stdout), y("Starting build and test process..."@)],
            prepare(s),
        ),
        (Stage::DockerfileCheck, EventView::Exists(found)) => if found {
            go(
                s,
                Stage::IgnoreCheck,
                seq![yd("Dockerfile found at:"@, st.dockerfile_path)],
                ActionView::CheckFile(dockerignore_for(s.context)),
            )
        } else {
            after(
                seq![say_with(Some(Hue::Red), "Dockerfile not found at:"@, st.dockerfile_path)],
                fail(s, FailureView::DockerfileNotFound(st.dockerfile_path)),
            )
        },
        (Stage::IgnoreCheck, EventView::Exists(found)) => if found {
            go(s, Stage::IgnoreRead, seq![], ActionView::ReadFile(dockerignore_for(s.context)))
        } else {
            after(
                seq![
                    say_with(
                        Some(Hue::Yellow),
                        "Warning: .dockerignore not found at:"@,
                        dockerignore_for(s.context),
                    ),
                    p(". Consider creating one with: .git, venv, __pycache__, *.log"@),
                ],
                begin_build(s),
            )
        },
        (Stage::IgnoreRead, EventView::Read(Err(m))) => fail(s, FailureView::Io(m)),
        (Stage::IgnoreRead, EventView::Read(Ok(contents))) => after(
            seq![y(".dockerignore contents:"@), p(contents)],
            begin_build(s),
        ),
        (Stage::Building, EventView::Built(b)) => match b {
            BuildEndView::NotStarted(m) => fail(
                s,
                FailureView::Context { context: "Failed to start docker build"@, cause: m },
            ),
            BuildEndView::TimedOut => fail(s, FailureView::BuildTimedOut(st.build_timeout)),
            BuildEndView::WaitFailed(m) => fail(s, FailureView::Io(m)),
            BuildEndView::Exited { success, status } => if success {
                go(s, Stage::ImageId, seq![], ActionView::Run(image_id_cmd(st.image_name)))
            } else {
                fail(s, FailureView::BuildFailed(status))
            },
        },
        (Stage::ImageId, EventView::Ran(OutcomeView::NotRun { error })) => fail(
            s,
            FailureView::Context { context: "Failed to get image ID"@, cause: error },
        ),
        (Stage::ImageId, EventView::Ran(OutcomeView::Ran { stdout, .. })) => {
            let id = trimmed(stdout);
            if id.len() == 0 {
                fail(s, FailureView::ImageIdMissing)
            } else {
                let s1 = SessionView { image_id: id, ..s };
                let built = say_with(
                    Some(Hue::Green),
                    "Docker image built successfully:"@,
                    st.image_name + " with ID: "@ + id,
                );
                if st.hot_fix {
                    after(
                        seq![
                            built,
                            say(
                                Some(Hue::Green),
                                "Image "@ + st.image_name + " built successfully in hot-fix mode"@,
                            ),
                        ],
                        exit(s1, Ok(())),
                    )
                } else {
                    go(
                        s1,
                        Stage::PortCheck,
                        seq![
                            built,
                            banner("RUN CONTAINER"@),
                            yd("Checking for port conflicts on:"@, "3000"@),
                        ],
                        ActionView::Run(netstat_cmd()),
                    )
                }
            }
        },
        (Stage::PortCheck, EventView::Ran(OutcomeView::NotRun { error })) => fail(
            s,
            FailureView::Context { context: "Failed to check port availability"@, cause: error },
        ),
        (Stage::PortCheck, EventView::Ran(OutcomeView::Ran { stdout, .. })) => if port_taken(
            stdout,
        ) {
            fail(s, FailureView::PortInUse(3000))
        } else {
            go(
                s,
                Stage::RemoveStale,
                seq![
                    yd("Starting container from image:"@, st.image_name),
                    yd("Assigning container name:"@, s.container),
                ],
                ActionView::Run(rm_cmd(s.container)),
            )
        },
        (Stage::RemoveStale, EventView::Ran(_)) => go(
            s,
            Stage::StartContainer,
            seq![],
            ActionView::Run(run_cmd(st.image_name, s.container, st.port)),
        ),
        (Stage::StartContainer, EventView::Ran(OutcomeView::NotRun { error })) => fail(
            s,
            FailureView::Context {
                context: "Failed to start container: "@ + st.image_name,
                cause: error,
            },
        ),
        (Stage::StartContainer, EventView::Ran(OutcomeView::Ran { stdout, .. })) => if trimmed(
            stdout,
        ).len() == 0 {
            fail(s, FailureView::NoContainerId)
        } else {
            go(
                s,
                Stage::WarmUp,
                seq![
                    say_with(Some(Hue::Green), "Container started:"@, s.container),
                    banner("TEST CONTAINER"@),
                    y("Testing Container..."@),
                ],
                ActionView::Sleep(10),
            )
        },
        (Stage::WarmUp, EventView::Slept) => {
            let (h, lines, a) = health_start(
                s.url,
                st.health_check_path,
                st.health_check_timeout,
                st.health_check_interval,
            );
            after(lines, lift_health(SessionView { stage: Stage::Health, health: Some(h), ..s }, a))
        },
        (Stage::Health, EventView::Probed(pr)) => {
            let (h, lines, a) = health_next(s.health.unwrap(), HealthEventView::Probed(pr));
            after(lines, lift_health(SessionView { health: Some(h), ..s }, a))
        },
        (Stage::Health, EventView::Slept) => {
            let (h, lines, a) = health_next(s.health.unwrap(), HealthEventView::Slept);
            after(lines, lift_health(SessionView { health: Some(h), ..s }, a))
        },
        (Stage::FetchLogs, EventView::Ran(OutcomeView::NotRun { error })) => exit(
            s,
            Err(FailureView::Context { context: "Failed to fetch container logs"@, cause: error }),
        ),
        (Stage::FetchLogs, EventView::Ran(OutcomeView::Ran { stdout, stderr, .. })) => {
            let shown = if stdout.len() == 0 && stderr.len() == 0 {
                seq![yd("No container logs available for:"@, s.container)]
            } else {
                seq![y("Container logs (stdout):"@), p(stdout)] + if stderr.len() > 0 {
                    seq![
                        warn(Some(Hue::Red), "Container logs (stderr):"@),
                        warn(None, stderr),
                    ]
                } else {
                    seq![]
                }
            };
            after(shown, after_logs(s))
        },
        (Stage::CleanupAfterSuccess, EventView::Ran(o)) => {
            let (c, lines, a) = cleanup_next(s.cleanup.unwrap(), o);
            after(lines, lift_cleanup(SessionView { cleanup: Some(c), ..s }, a))
        },
        (Stage::CleanupAfterFailure, EventView::Ran(o)) => {
            let (c, lines, a) = cleanup_next(s.cleanup.unwrap(), o);
            after(lines, lift_cleanup(SessionView { cleanup: Some(c), ..s }, a))
        },
        _ => unchanged(s),
    }
}

// ---------------------------------------------------------------------------
// Executable steps
// ---------------------------------------------------------------------------

/// The line showing one line of the build's output.
pub open spec fn build_log(line: Seq<char>) -> LineView {
    yd("Build log:"@, line)
}

/// The line showing one line of the build's output.
pub fn build_log_line(line: String) -> (l: Line)
    ensures
        l@ == build_log(line@),
{
    Line { hue: Some(Hue::Yellow), label: String::from_str("Build log:"), detail: Some(line), to_stderr: false }
}

fn yellow_with(out: &mut Vec<Line>, label: &str, detail: String)
    ensures
        views(final(out)@) == views(old(out)@).push(yd(label@, detail@)),
{
    tinted(out, Hue::Yellow, label, detail);
}

impl Session {
    /// Starts a run with the settings `settings`.
    pub fn start(settings: Settings) -> (r: (Session, Vec<Line>, Action))
        ensures
            (r.0@, views(r.1@), r.2@) == session_start(settings@),
            session_inv(r.0@),
    {
        let mut out: Vec<Line> = Vec::new();
        yellow(&mut out, "Starting Docker test script...");
        let container = container_name(settings.image_name.as_str());
        let url = health_url(settings.health_check_path.as_str());
        let s = Session {
            settings,
            container,
            context: String::new(),
            url,
            image_id: String::new(),
            reason: String::new(),
            stage: Stage::Resources,
            health: None,
            cleanup: None,
        };
        assert(views(out@) =~= session_start(s.settings@).1);
        (s, out, Action::CheckResources)
    }

    /// Whether the run waits for `e`.
    pub fn awaits(&self, e: &Event) -> (r: bool)
        ensures
            r == session_awaits(self@, e@),
    {
        match self.stage {
            Stage::Resources => matches!(e, Event::ResourcesChecked),
            Stage::DockerfileCheck | Stage::IgnoreCheck => matches!(e, Event::Exists(_)),
            Stage::IgnoreRead => matches!(e, Event::Read(_)),
            Stage::Building => matches!(e, Event::Built(_)),
            Stage::WarmUp => matches!(e, Event::Slept),
            Stage::Health => match &self.health {
                Some(h) => match h.stage() {
                    HealthStage::Probing => matches!(e, Event::Probed(_)),
                    HealthStage::Pausing => matches!(e, Event::Slept),
                    HealthStage::Finished => false,
                },
                None => false,
            },
            Stage::Finished => false,
            _ => matches!(e, Event::Ran(_)),
        }
    }

    /// Whether the run is over.
    pub fn is_finished(&self) -> (r: bool)
        ensures
            r == (self@.stage == Stage::Finished),
    {
        self.stage == Stage::Finished
    }

    fn exit(&mut self, r: Result<(), Failure>) -> (a: Action)
        ensures
            final(self)@ == exit(old(self)@, match r {
                Ok(()) => Ok(()),
                Err(f) => Err(f@),
            }).0,
            a@ == exit(old(self)@, match r {
                Ok(()) => Ok(()),
                Err(f) => Err(f@),
            }).2,
    {
        self.stage = Stage::Finished;
        Action::Exit(r)
    }

    fn begin_build(&mut self, out: &mut Vec<Line>) -> (a: Action)
        ensures
            final(self)@ == begin_build(old(self)@).0,
            views(final(out)@) == views(old(out)@) + begin_build(old(self)@).1,
            a@ == begin_build(old(self)@).2,
    {
        yellow_with(out, "Starting Docker image build for:", self.settings.image_name.clone());
        let command = build_command(
            self.settings.image_name.as_str(),
            self.settings.dockerfile_path.as_str(),
            self.context.as_str(),
        );
        self.stage = Stage::Building;
        assert(views(out@) =~= views(old(out)@) + begin_build(old(self)@).1);
        Action::Build { command, timeout_secs: self.settings.build_timeout }
    }

    fn prepare(&mut self, out: &mut Vec<Line>) -> (a: Action)
        ensures
            final(self)@ == prepare(old(self)@).0,
            views(final(out)@) == views(old(out)@) + prepare(old(self)@).1,
            a@ == prepare(old(self)@).2,
    {
        match parent_dir(self.settings.dockerfile_path.as_str()) {
            None => {
                let p = self.settings.dockerfile_path.clone();
                assert(views(out@) =~= views(old(out)@) + prepare(old(self)@).1);
                self.exit(Err(Failure::InvalidDockerfilePath(p)))
            },
            Some(context) => {
                self.context = context;
                emit_banner(out, "BUILD IMAGE");
                if self.settings.hot_fix {
                    yellow(out, "Hot-fix mode: Building image only, skipping tests...");
                    let a = self.begin_build(out);
                    assert(views(out@) =~= views(old(out)@) + prepare(old(self)@).1);
                    a
                } else {
                    self.stage = Stage::DockerfileCheck;
                    assert(views(out@) =~= views(old(out)@) + prepare(old(self)@).1);
                    Action::CheckFile(self.settings.dockerfile_path.clone())
                }
            },
        }
    }

    fn fail(&mut self, out: &mut Vec<Line>, f: Failure) -> (a: Action)
        ensures
            final(self)@ == fail(old(self)@, f@).0,
            views(final(out)@) == views(old(out)@) + fail(old(self)@, f@).1,
            a@ == fail(old(self)@, f@).2,
    {
        if self.settings.hot_fix {
            assert(views(out@) =~= views(old(out)@) + fail(old(self)@, f@).1);
            return self.exit(Err(f));
        }
        let m = f.message();
        let mut head = String::from_str("Container failed to start (\"");
        append(&mut head, self.settings.health_check_path.as_str());
        append(&mut head, " did not return 200OK\"): ");
        append(&mut head, m.as_str());
        emit_warn(out, Some(Hue::Red), head);
        self.reason = m;
        if !self.container.as_str().is_empty() {
            yellow(out, "Fetching container logs for:");
            plain(out, self.container.clone());
            self.stage = Stage::FetchLogs;
            assert(views(out@) =~= views(old(out)@) + fail(old(self)@, f@).1);
            Action::Run(logs_command(self.container.as_str()))
        } else {
            let a = self.after_logs(out);
            assert(views(out@) =~= views(old(out)@) + fail(old(self)@, f@).1);
            a
        }
    }

    fn after_logs(&mut self, out: &mut Vec<Line>) -> (a: Action)
        ensures
            final(self)@ == after_logs(old(self)@).0,
            views(final(out)@) == views(old(out)@) + after_logs(old(self)@).1,
            a@ == after_logs(old(self)@).2,
    {
        emit_warn(out, Some(Hue::Red), String::from_str("Container failed to start"));
        emit_banner(out, "CLEANUP");
        let (c, lines, ca) = Cleanup::start(
            String::new(),
            self.container.clone(),
            self.settings.image_name.clone(),
        );
        emit_all(out, lines);
        self.cleanup = Some(c);
        self.stage = Stage::CleanupAfterFailure;
        let a = self.lift_cleanup(out, ca);
        assert(views(out@) =~= views(old(out)@) + after_logs(old(self)@).1);
        a
    }

    fn lift_cleanup(&mut self, out: &mut Vec<Line>, ca: CleanupAction) -> (a: Action)
        ensures
            final(self)@ == lift_cleanup(old(self)@, ca@).0,
            views(final(out)@) == views(old(out)@) + lift_cleanup(old(self)@, ca@).1,
            a@ == lift_cleanup(old(self)@, ca@).2,
    {
        match ca {
            CleanupAction::Run(c) => {
                assert(views(out@) =~= views(old(out)@) + lift_cleanup(old(self)@, ca@).1);
                Action::Run(c)
            },
            CleanupAction::Done(Err(e)) => {
                assert(views(out@) =~= views(old(out)@) + lift_cleanup(old(self)@, ca@).1);
                self.exit(Err(Failure::Cleanup(e)))
            },
            CleanupAction::Done(Ok(())) => {
                if self.stage == Stage::CleanupAfterSuccess {
                    let mut m = String::from_str("Container started successfully and ");
                    append(&mut m, self.settings.health_check_path.as_str());
                    append(&mut m, " endpoint returned 200 OK");
                    emit_say(out, Some(Hue::Green), m);
                    assert(views(out@) =~= views(old(out)@) + lift_cleanup(old(self)@, ca@).1);
                    self.exit(Ok(()))
                } else {
                    let f = Failure::StartFailed {
                        container: self.container.clone(),
                        reason: self.reason.clone(),
                    };
                    assert(views(out@) =~= views(old(out)@) + lift_cleanup(old(self)@, ca@).1);
                    self.exit(Err(f))
                }
            },
        }
    }

    fn lift_health(&mut self, out: &mut Vec<Line>, ha: HealthAction) -> (a: Action)
        ensures
            final(self)@ == lift_health(old(self)@, ha@).0,
            views(final(out)@) == views(old(out)@) + lift_health(old(self)@, ha@).1,
            a@ == lift_health(old(self)@, ha@).2,
    {
        match ha {
            HealthAction::Probe { url, timeout_secs } => {
                assert(views(out@) =~= views(old(out)@) + lift_health(old(self)@, ha@).1);
                Action::Probe { url, timeout_secs }
            },
            HealthAction::Sleep { secs } => {
                assert(views(out@) =~= views(old(out)@) + lift_health(old(self)@, ha@).1);
                Action::Sleep(secs)
            },
            HealthAction::Done(Err(e)) => self.fail(out, Failure::Health(e)),
            HealthAction::Done(Ok(())) => {
                emit_banner(out, "CLEANUP");
                let (c, lines, ca) = Cleanup::start(
                    self.image_id.clone(),
                    self.container.clone(),
                    self.settings.image_name.clone(),
                );
                emit_all(out, lines);
                self.cleanup = Some(c);
                self.stage = Stage::CleanupAfterSuccess;
                let a = self.lift_cleanup(out, ca);
                assert(views(out@) =~= views(old(out)@) + lift_health(old(self)@, ha@).1);
                a
            },
        }
    }

    fn on_resources(&mut self, e: Event) -> (r: (Vec<Line>, Action))
        requires
            old(self)@.stage == Stage::Resources,
        ensures
            (final(self)@, views(r.0@), r.1@) == session_next(old(self)@, e@),
    {
        let out: Vec<Line> = Vec::new();
        assert(views(out@) =~= Seq::<LineView>::empty());
        match e {
            Event::ResourcesChecked => {
                self.stage = Stage::DockerVersion;
                (out, Action::Run(version_command()))
            },
            _ => (out, Action::CheckResources),
        }
    }

    fn on_docker_version(&mut self, e: Event) -> (r: (Vec<Line>, Action))
        requires
            old(self)@.stage == Stage::DockerVersion,
        ensures
            (final(self)@, views(r.0@), r.1@) == session_next(old(self)@, e@),
    {
        let ghost s0 = self@;
        let mut out: Vec<Line> = Vec::new();
        let a = match e {
            Event::Ran(Outcome::NotRun { error }) => self.exit(
                Err(
                    Failure::Context {
                        context: String::from_str("Failed to run docker version"),
                        cause: error,
                    },
                ),
            ),
            Event::Ran(Outcome::Ran { stdout, stderr, .. }) => {
                yellow(&mut out, "Docker version:");
                plain(&mut out, stdout);
                if !stderr.as_str().is_empty() {
                    crate::report::red(&mut out, "Docker version stderr:");
                    plain(&mut out, stderr);
                }
                self.stage = Stage::DockerInfo;
                Action::Run(info_command())
            },
            _ => Action::CheckResources,
        };
        assert(views(out@) =~= session_next(s0, e@).1);
        (out, a)
    }

    fn on_docker_info(&mut self, e: Event) -> (r: (Vec<Line>, Action))
        requires
            old(self)@.stage == Stage::DockerInfo,
        ensures
            (final(self)@, views(r.0@), r.1@) == session_next(old(self)@, e@),
    {
        let ghost s0 = self@;
        let mut out: Vec<Line> = Vec::new();
        let a = match e {
            Event::Ran(Outcome::NotRun { error }) => self.exit(
                Err(
                    Failure::Context {
                        context: String::from_str("Failed to run docker info"),
                        cause: error,
                    },
                ),
            ),
            Event::Ran(Outcome::Ran { stdout, .. }) => {
                yellow(&mut out, "Docker info:");
                plain(&mut out, stdout);
                yellow(&mut out, "Starting build and test process...");
                self.prepare(&mut out)
            },
            _ => Action::CheckResources,
        };
        assert(views(out@) =~= session_next(s0, e@).1);
        (out, a)
    }

    fn on_dockerfile_check(&mut self, e: Event) -> (r: (Vec<Line>, Action))
        requires
            old(self)@.stage == Stage::DockerfileCheck,
        ensures
            (final(self)@, views(r.0@), r.1@) == session_next(old(self)@, e@),
    {
        let ghost s0 = self@;
        let mut out: Vec<Line> = Vec::new();
        let a = match e {
            Event::Exists(true) => {
                yellow_with(&mut out, "Dockerfile found at:", self.settings.dockerfile_path.clone());
                self.stage = Stage::IgnoreCheck;
                Action::CheckFile(dockerignore_path(self.context.as_str()))
            },
            Event::Exists(false) => {
                tinted(
                    &mut out,
                    Hue::Red,
                    "Dockerfile not found at:",
                    self.settings.dockerfile_path.clone(),
                );
                let f = Failure::DockerfileNotFound(self.settings.dockerfile_path.clone());
                self.fail(&mut out, f)
            },
            _ => Action::CheckResources,
        };
        assert(views(out@) =~= session_next(s0, e@).1);
        (out, a)
    }

    fn on_ignore_check(&mut self, e: Event) -> (r: (Vec<Line>, Action))
        requires
            old(self)@.stage == Stage::IgnoreCheck,
        ensures
            (final(self)@, views(r.0@), r.1@) == session_next(old(self)@, e@),
    {
        let ghost s0 = self@;
        let mut out: Vec<Line> = Vec::new();
        let a = match e {
            Event::Exists(true) => {
                self.stage = Stage::IgnoreRead;
                Action::ReadFile(dockerignore_path(self.context.as_str()))
            },
            Event::Exists(false) => {
                tinted(
                    &mut out,
                    Hue::Yellow,
                    "Warning: .dockerignore not found at:",
                    dockerignore_path(self.context.as_str()),
                );
                plain(
                    &mut out,
                    String::from_str(". Consider creating one with: .git, venv, __pycache__, *.log"),
                );
                self.begin_build(&mut out)
            },
            _ => Action::CheckResources,
        };
        assert(views(out@) =~= session_next(s0, e@).1);
        (out, a)
    }

    fn on_ignore_read(&mut self, e: Event) -> (r: (Vec<Line>, Action))
        requires
            old(self)@.stage == Stage::IgnoreRead,
        ensures
            (final(self)@, views(r.0@), r.1@) == session_next(old(self)@, e@),
    {
        let ghost s0 = self@;
        let mut out: Vec<Line> = Vec::new();
        let a = match e {
            Event::Read(Err(m)) => self.fail(&mut out, Failure::Io(m)),
            Event::Read(Ok(contents)) => {
                yellow(&mut out, ".dockerignore contents:");
                plain(&mut out, contents);
                self.begin_build(&mut out)
            },
            _ => Action::CheckResources,
        };
        assert(views(out@) =~= session_next(s0, e@).1);
        (out, a)
    }

    fn on_building(&mut self, e: Event) -> (r: (Vec<Line>, Action))
        requires
            old(self)@.stage == Stage::Building,
        ensures
            (final(self)@, views(r.0@), r.1@) == session_next(old(self)@, e@),
    {
        let ghost s0 = self@;
        let mut out: Vec<Line> = Vec::new();
        let a = match e {
            Event::Built(BuildEnd::NotStarted(m)) => self.fail(
                &mut out,
                Failure::Context { context: String::from_str("Failed to start docker build"), cause: m },
            ),
            Event::Built(BuildEnd::TimedOut) => {
                let t = self.settings.build_timeout;
                self.fail(&mut out, Failure::BuildTimedOut(t))
            },
            Event::Built(BuildEnd::WaitFailed(m)) => self.fail(&mut out, Failure::Io(m)),
            Event::Built(BuildEnd::Exited { success, status }) => {
                if success {
                    self.stage = Stage::ImageId;
                    Action::Run(image_id_command(self.settings.image_name.as_str()))
                } else {
                    self.fail(&mut out, Failure::BuildFailed(status))
                }
            },
            _ => Action::CheckResources,
        };
        assert(views(out@) =~= session_next(s0, e@).1);
        (out, a)
    }

    fn on_image_id(&mut self, e: Event) -> (r: (Vec<Line>, Action))
        requires
            old(self)@.stage == Stage::ImageId,
        ensures
            (final(self)@, views(r.0@), r.1@) == session_next(old(self)@, e@),
    {
        let ghost s0 = self@;
        let mut out: Vec<Line> = Vec::new();
        let a = match e {
            Event::Ran(Outcome::NotRun { error }) => self.fail(
                &mut out,
                Failure::Context { context: String::from_str("Failed to get image ID"), cause: error },
            ),
            Event::Ran(Outcome::Ran { stdout, .. }) => {
                let id = trim(stdout.as_str());
                if id.as_str().is_empty() {
                    self.fail(&mut out, Failure::ImageIdMissing)
                } else {
                    let mut d = self.settings.image_name.clone();
                    append(&mut d, " with ID: ");
                    append(&mut d, id.as_str());
                    tinted(&mut out, Hue::Green, "Docker image built successfully:", d);
                    self.image_id = id;
                    if self.settings.hot_fix {
                        let mut m = String::from_str("Image ");
                        append(&mut m, self.settings.image_name.as_str());
                        append(&mut m, " built successfully in hot-fix mode");
                        emit_say(&mut out, Some(Hue::Green), m);
                        self.exit(Ok(()))
                    } else {
                        emit_banner(&mut out, "RUN CONTAINER");
                        yellow_with(&mut out, "Checking for port conflicts on:", String::from_str("3000"));
                        self.stage = Stage::PortCheck;
                        Action::Run(netstat_command())
                    }
                }
            },
            _ => Action::CheckResources,
        };
        assert(views(out@) =~= session_next(s0, e@).1);
        (out, a)
    }

    fn on_port_check(&mut self, e: Event) -> (r: (Vec<Line>, Action))
        requires
            old(self)@.stage == Stage::PortCheck,
        ensures
            (final(self)@, views(r.0@), r.1@) == session_next(old(self)@, e@),
    {
        let ghost s0 = self@;
        let mut out: Vec<Line> = Vec::new();
        let a = match e {
            Event::Ran(Outcome::NotRun { error }) => self.fail(
                &mut out,
                Failure::Context {
                    context: String::from_str("Failed to check port availability"),
                    cause: error,
                },
            ),
            Event::Ran(Outcome::Ran { stdout, .. }) => {
                if port_in_use(stdout.as_str()) {
                    self.fail(&mut out, Failure::PortInUse(3000))
                } else {
                    yellow_with(
                        &mut out,
                        "Starting container from image:",
                        self.settings.image_name.clone(),
                    );
                    yellow_with(&mut out, "Assigning container name:", self.container.clone());
                    self.stage = Stage::RemoveStale;
                    Action::Run(rm_command(self.container.as_str()))
                }
            },
            _ => Action::CheckResources,
        };
        assert(views(out@) =~= session_next(s0, e@).1);
        (out, a)
    }

    fn on_remove_stale(&mut self, e: Event) -> (r: (Vec<Line>, Action))
        requires
            old(self)@.stage == Stage::RemoveStale,
        ensures
            (final(self)@, views(r.0@), r.1@) == session_next(old(self)@, e@),
    {
        let out: Vec<Line> = Vec::new();
        assert(views(out@) =~= Seq::<LineView>::empty());
        match e {
            Event::Ran(_) => {
                self.stage = Stage::StartContainer;
                let c = run_command(
                    self.settings.image_name.as_str(),
                    self.container.as_str(),
                    self.settings.port,
                );
                (out, Action::Run(c))
            },
            _ => (out, Action::CheckResources),
        }
    }

    fn on_start_container(&mut self, e: Event) -> (r: (Vec<Line>, Action))
        requires
            old(self)@.stage == Stage::StartContainer,
        ensures
            (final(self)@, views(r.0@), r.1@) == session_next(old(self)@, e@),
    {
        let ghost s0 = self@;
        let mut out: Vec<Line> = Vec::new();
        let a = match e {
            Event::Ran(Outcome::NotRun { error }) => {
                let mut ctx = String::from_str("Failed to start container: ");
                append(&mut ctx, self.settings.image_name.as_str());
                self.fail(&mut out, Failure::Context { context: ctx, cause: error })
            },
            Event::Ran(Outcome::Ran { stdout, .. }) => {
                let id = trim(stdout.as_str());
                if id.as_str().is_empty() {
                    self.fail(&mut out, Failure::NoContainerId)
                } else {
                    tinted(&mut out, Hue::Green, "Container started:", self.container.clone());
                    emit_banner(&mut out, "TEST CONTAINER");
                    yellow(&mut out, "Testing Container...");
                    self.stage = Stage::WarmUp;
                    Action::Sleep(10)
                }
            },
            _ => Action::CheckResources,
        };
        assert(views(out@) =~= session_next(s0, e@).1);
        (out, a)
    }

    fn on_warm_up(&mut self, e: Event) -> (r: (Vec<Line>, Action))
        requires
            old(self)@.stage == Stage::WarmUp,
        ensures
            (final(self)@, views(r.0@), r.1@) == session_next(old(self)@, e@),
    {
        let ghost s0 = self@;
        let mut out: Vec<Line> = Vec::new();
        let a = match e {
            Event::Slept => {
                let (h, lines, ha) = HealthCheck::start(
                    self.url.clone(),
                    self.settings.health_check_path.clone(),
                    self.settings.health_check_timeout,
                    self.settings.health_check_interval,
                );
                emit_all(&mut out, lines);
                self.health = Some(h);
                self.stage = Stage::Health;
                self.lift_health(&mut out, ha)
            },
            _ => Action::CheckResources,
        };
        assert(views(out@) =~= session_next(s0, e@).1);
        (out, a)
    }

    fn on_health(&mut self, e: Event) -> (r: (Vec<Line>, Action))
        requires
            old(self)@.stage == Stage::Health,
            old(self)@.health matches Some(h) && health_inv(h) && h.stage != HealthStage::Finished,
            session_awaits(old(self)@, e@),
        ensures
            (final(self)@, views(r.0@), r.1@) == session_next(old(self)@, e@),
    {
        let ghost s0 = self@;
        let mut out: Vec<Line> = Vec::new();
        let mut h = self.health.take().unwrap();
        let he = match e {
            Event::Probed(p) => HealthEvent::Probed(p),
            _ => HealthEvent::Slept,
        };
        let (lines, ha) = h.step(he);
        emit_all(&mut out, lines);
        self.health = Some(h);
        let a = self.lift_health(&mut out, ha);
        assert(views(out@) =~= session_next(s0, e@).1);
        (out, a)
    }

    fn on_fetch_logs(&mut self, e: Event) -> (r: (Vec<Line>, Action))
        requires
            old(self)@.stage == Stage::FetchLogs,
        ensures
            (final(self)@, views(r.0@), r.1@) == session_next(old(self)@, e@),
    {
        let ghost s0 = self@;
        let mut out: Vec<Line> = Vec::new();
        let a = match e {
            Event::Ran(Outcome::NotRun { error }) => self.exit(
                Err(
                    Failure::Context {
                        context: String::from_str("Failed to fetch container logs"),
                        cause: error,
                    },
                ),
            ),
            Event::Ran(Outcome::Ran { stdout, stderr, .. }) => {
                if stdout.as_str().is_empty() && stderr.as_str().is_empty() {
                    yellow_with(&mut out, "No container logs available for:", self.container.clone());
                } else {
                    yellow(&mut out, "Container logs (stdout):");
                    plain(&mut out, stdout);
                    if !stderr.as_str().is_empty() {
                        emit_warn(&mut out, Some(Hue::Red), String::from_str("Container logs (stderr):"));
                        emit_warn(&mut out, None, stderr);
                    }
                }
                self.after_logs(&mut out)
            },
            _ => Action::CheckResources,
        };
        assert(views(out@) =~= session_next(s0, e@).1);
        (out, a)
    }

    fn on_cleanup(&mut self, e: Event) -> (r: (Vec<Line>, Action))
        requires
            old(self)@.stage == Stage::CleanupAfterSuccess || old(self)@.stage
                == Stage::CleanupAfterFailure,
            old(self)@.cleanup matches Some(c) && cleanup_inv(c) && c.stage
                != CleanupStage::Finished,
        ensures
            (final(self)@, views(r.0@), r.1@) == session_next(old(self)@, e@),
    {
        let ghost s0 = self@;
        let mut out: Vec<Line> = Vec::new();
        let a = match e {
            Event::Ran(o) => {
                let mut c = self.cleanup.take().unwrap();
                let (lines, ca) = c.step(o);
                emit_all(&mut out, lines);
                self.cleanup = Some(c);
                self.lift_cleanup(&mut out, ca)
            },
            _ => Action::CheckResources,
        };
        assert(views(out@) =~= session_next(s0, e@).1);
        (out, a)
    }

    /// Takes the event `e`, reporting how the last action went, and returns
    /// the lines to print and what to do next.
    pub fn step(&mut self, e: Event) -> (r: (Vec<Line>, Action))
        requires
            session_inv(old(self)@),
            session_awaits(old(self)@, e@),
        ensures
            (final(self)@, views(r.0@), r.1@) == session_next(old(self)@, e@),
            session_inv(final(self)@),
    {
        proof {
            law_session_inv_kept(self@, e@);
        }
        match self.stage {
            Stage::Resources => self.on_resources(e),
            Stage::DockerVersion => self.on_docker_version(e),
            Stage::DockerInfo => self.on_docker_info(e),
            Stage::DockerfileCheck => self.on_dockerfile_check(e),
            Stage::IgnoreCheck => self.on_ignore_check(e),
            Stage::IgnoreRead => self.on_ignore_read(e),
            Stage::Building => self.on_building(e),
            Stage::ImageId => self.on_image_id(e),
            Stage::PortCheck => self.on_port_check(e),
            Stage::RemoveStale => self.on_remove_stale(e),
            Stage::StartContainer => self.on_start_container(e),
            Stage::WarmUp => self.on_warm_up(e),
            Stage::Health => self.on_health(e),
            Stage::FetchLogs => self.on_fetch_logs(e),
            Stage::CleanupAfterSuccess => self.on_cleanup(e),
            Stage::CleanupAfterFailure => self.on_cleanup(e),
            Stage::Finished => (Vec::new(), Action::CheckResources),
        }
    }
}

// ---------------------------------------------------------------------------
// Laws
// ---------------------------------------------------------------------------

/// Every step keeps the run's invariant.
pub proof fn law_session_inv_kept(s: SessionView, e: EventView)
    requires
        session_inv(s),
        session_awaits(s, e),
    ensures
        session_inv(session_next(s, e).0),
{
    match s.stage {
        Stage::WarmUp => {
            law_health_start(
                s.url,
                s.settings.health_check_path,
                s.settings.health_check_timeout,
                s.settings.health_check_interval,
            );
        },
        Stage::Health => {
            let h = s.health.unwrap();
            match e {
                EventView::Probed(pr) => law_health_bounded(h, HealthEventView::Probed(pr)),
                _ => law_health_bounded(h, HealthEventView::Slept),
            }
        },
        Stage::CleanupAfterSuccess | Stage::CleanupAfterFailure => {
            if let EventView::Ran(o) = e {
                law_cleanup_inv_kept(s.cleanup.unwrap(), o);
            }
        },
        _ => {},
    }
}

/// In hot-fix mode a run only checks the host, asks Docker for its version
/// and information, builds the image and reads its id: it never starts a
/// container, probes a health check or cleans up.
pub proof fn law_hot_fix_only_builds(s: SessionView, e: EventView)
    requires
        session_inv(s),
        session_awaits(s, e),
        s.settings.hot_fix,
    ensures
        ({
            let a = session_next(s, e).2;
            ||| a is CheckResources
            ||| a is Build
            ||| a is Exit
            ||| a == ActionView::Run(version_cmd())
            ||| a == ActionView::Run(info_cmd())
            ||| a == ActionView::Run(image_id_cmd(s.settings.image_name))
        }),
{
}

/// Outside hot-fix mode, once the image build has begun, a failure never
/// ends the run at once: it leads to the container's logs and then to the
/// cleanup.  The run then ends only when the cleanup is over, or when the
/// logs cannot be fetched.
pub proof fn law_failures_lead_to_cleanup(s: SessionView, e: EventView)
    requires
        session_inv(s),
        session_awaits(s, e),
        !s.settings.hot_fix,
        s.stage != Stage::Resources,
        s.stage != Stage::DockerVersion,
        s.stage != Stage::DockerInfo,
        s.stage != Stage::FetchLogs,
        s.stage != Stage::CleanupAfterSuccess,
        s.stage != Stage::CleanupAfterFailure,
    ensures
        !(session_next(s, e).2 is Exit),
{
    if s.stage == Stage::WarmUp {
        law_health_start(
            s.url,
            s.settings.health_check_path,
            s.settings.health_check_timeout,
            s.settings.health_check_interval,
        );
    }
}

/// During the cleanup, the run ends exactly when the cleanup is done, and
/// with the cleanup's own error when it fails.
pub proof fn law_cleanup_decides_the_end(s: SessionView, o: OutcomeView)
    requires
        session_inv(s),
        s.stage == Stage::CleanupAfterSuccess || s.stage == Stage::CleanupAfterFailure,
    ensures
        (session_next(s, EventView::Ran(o)).2 is Exit) <==> (cleanup_next(s.cleanup.unwrap(), o).2 is Done),
        cleanup_next(s.cleanup.unwrap(), o).2 matches CleanupActionView::Done(Err(ce))
            ==> session_next(s, EventView::Ran(o)).2 == ActionView::Exit(Err(FailureView::Cleanup(ce))),
{
}

/// A run succeeds only in two ways: in hot-fix mode once the image is built
/// and its id known; otherwise once the health check has passed and the
/// cleanup after it found nothing left.
pub proof fn law_success_needs_health_and_cleanup(s: SessionView, e: EventView)
    requires
        session_inv(s),
        session_awaits(s, e),
        session_next(s, e).2 == ActionView::Exit(Ok(())),
    ensures
        s.settings.hot_fix ==> s.stage == Stage::ImageId,
        !s.settings.hot_fix ==> s.stage == Stage::CleanupAfterSuccess && (e matches EventView::Ran(
            o,
        ) && cleanup_next(s.cleanup.unwrap(), o).2 == CleanupActionView::Done(Ok(()))),
{
    if s.stage == Stage::WarmUp {
        law_health_start(
            s.url,
            s.settings.health_check_path,
            s.settings.health_check_timeout,
            s.settings.health_check_interval,
        );
    }
}

/// The image id is recorded only from the id query that follows a build
/// that exited successfully, and only when it is non-empty; the id recorded
/// has no surrounding white space, so trimming it again changes nothing.
/// The query is reached only after a build that exited successfully within
/// the configured timeout (the build action carries that timeout, and a
/// build that outlasts it fails the run).
pub proof fn law_image_id_comes_from_successful_build(s: SessionView, e: EventView)
    requires
        session_inv(s),
        session_awaits(s, e),
    ensures
        session_next(s, e).0.image_id != s.image_id ==> {
            &&& s.stage == Stage::ImageId
            &&& e matches EventView::Ran(OutcomeView::Ran { stdout, .. }) && session_next(s, e).0.image_id
                == trimmed(stdout)
            &&& session_next(s, e).0.image_id.len() > 0
            &&& trimmed(session_next(s, e).0.image_id) == session_next(s, e).0.image_id
        },
        s.stage != Stage::ImageId && session_next(s, e).0.stage == Stage::ImageId ==> {
            &&& s.stage == Stage::Building
            &&& e matches EventView::Built(BuildEndView::Exited { success, .. }) && success
        },
        s.stage == Stage::Building && e == EventView::Built(BuildEndView::TimedOut) ==> session_next(
            s,
            e,
        ).2 is Exit || session_next(s, e).0.stage == Stage::FetchLogs
            || session_next(s, e).0.stage == Stage::CleanupAfterFailure,
{
    if s.stage == Stage::ImageId {
        if let EventView::Ran(OutcomeView::Ran { stdout, .. }) = e {
            lemma_trimmed_idempotent(stdout);
        }
    }
    if s.stage == Stage::WarmUp {
        law_health_start(
            s.url,
            s.settings.health_check_path,
            s.settings.health_check_timeout,
            s.settings.health_check_interval,
        );
    }
}

/// The cleanup after a passed test begins only when the health check ends
/// successfully.
pub proof fn law_success_path_needs_health(s: SessionView, e: EventView)
    requires
        session_inv(s),
        session_awaits(s, e),
        s.stage != Stage::CleanupAfterSuccess,
        session_next(s, e).0.stage == Stage::CleanupAfterSuccess,
    ensures
        s.stage == Stage::Health,
        e matches EventView::Probed(pr) && health_next(s.health.unwrap(), HealthEventView::Probed(pr)).2
            == HealthActionView::Done(Ok(())),
{
    if s.stage == Stage::WarmUp {
        law_health_start(
            s.url,
            s.settings.health_check_path,
            s.settings.health_check_timeout,
            s.settings.health_check_interval,
        );
    }
    if s.stage == Stage::Health {
        if e is Slept {
            law_health_bounded(s.health.unwrap(), HealthEventView::Slept);
        }
    }
}

/// The build context is the Dockerfile's directory, once the run has got
/// past the Docker checks.
pub open spec fn context_fixed(s: SessionView) -> bool {
    ||| s.stage == Stage::Resources
    ||| s.stage == Stage::DockerVersion
    ||| s.stage == Stage::DockerInfo
    ||| s.stage == Stage::Finished
    ||| path_parent(s.settings.dockerfile_path) == Some(s.context)
}

/// A run starts with its build context not yet fixed, and every step keeps
/// the build context the Dockerfile's directory once it is fixed.
pub proof fn law_context_is_dockerfile_dir(s: SessionView, e: EventView)
    requires
        session_inv(s),
        session_awaits(s, e),
        context_fixed(s),
    ensures
        context_fixed(session_next(s, e).0),
        session_next(s, e).0.settings == s.settings,
        context_fixed(session_start(s.settings).0),
{
    if s.stage == Stage::WarmUp {
        law_health_start(
            s.url,
            s.settings.health_check_path,
            s.settings.health_check_timeout,
            s.settings.health_check_interval,
        );
    }
}

/// Every build a run asks for builds the configured image from the
/// configured Dockerfile in the run's build context, and is cut off after
/// the configured build timeout.
pub proof fn law_build_uses_settings(s: SessionView, e: EventView)
    requires
        session_inv(s),
        session_awaits(s, e),
    ensures
        session_next(s, e).2 matches ActionView::Build { command, timeout_secs } ==> {
            &&& timeout_secs == s.settings.build_timeout
            &&& command == (CommandView {
                program: "docker"@,
                args: seq![
                    "build"@,
                    "-t"@,
                    s.settings.image_name,
                    "-f"@,
                    s.settings.dockerfile_path,
                    session_next(s, e).0.context,
                ],
            })
        },
{
    if s.stage == Stage::WarmUp {
        law_health_start(
            s.url,
            s.settings.health_check_path,
            s.settings.health_check_timeout,
            s.settings.health_check_interval,
        );
    }
}

/// The container is started from the configured image under the container
/// name, publishing the configured port.
pub proof fn law_container_runs_with_settings(s: SessionView, o: OutcomeView)
    requires
        session_inv(s),
        s.stage == Stage::RemoveStale,
    ensures
        session_next(s, EventView::Ran(o)).2 == ActionView::Run(
            run_cmd(s.settings.image_name, s.container, s.settings.port),
        ),
{
}

/// The port check reads what `netstat` prints on standard output: when it
/// shows `:3000`, the test fails with the port in use, and no stale
/// container is removed and none started; otherwise the run goes on to
/// remove a stale container of the same name.
pub proof fn law_port_conflict_stops_the_run(
    s: SessionView,
    success: bool,
    stdout: Seq<char>,
    stderr: Seq<char>,
)
    requires
        session_inv(s),
        s.stage == Stage::PortCheck,
    ensures
        ({
            let (t, _, a) = session_next(
                s,
                EventView::Ran(OutcomeView::Ran { success, stdout, stderr }),
            );
            &&& crate::text::occurs_in(stdout, ":3000"@) ==> {
                &&& t.stage != Stage::RemoveStale
                &&& t.stage != Stage::StartContainer
                &&& a != ActionView::Run(rm_cmd(s.container))
                &&& t.reason == "Port "@ + decimal(3000) + " is already in use"@
            }
            &&& !crate::text::occurs_in(stdout, ":3000"@) ==> {
                &&& t.stage == Stage::RemoveStale
                &&& a == ActionView::Run(rm_cmd(s.container))
            }
        }),
{
    assert(rm_cmd(s.container).args.len() == 3);
    assert(logs_cmd(s.container).args.len() == 4);
    assert(info_cmd().args.len() == 1);
}

} // verus!
