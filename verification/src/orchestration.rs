//! The order of the startup, the waits on a service, and the decision of
//! whether to start the backend: the outside work (running programs,
//! probing ports and endpoints, sleeping) is done by the caller, which
//! reports each outcome back.
use vstd::prelude::*;
use crate::progress::{StartupProgress, startup_progress};
use crate::startup::{initdb_launch_error, initdb_status_error};

verus! {

/// An operation of the startup.
#[derive(Clone, Copy, Debug, PartialEq, Eq, Structural)]
pub enum StartupOp {
    /// Initialise the database cluster if it is not yet.
    InitDb,
    /// Start the embedded PostgreSQL server.
    StartPostgres,
    /// Wait, at most `timeout_secs` seconds, until it accepts connections.
    WaitPostgres { timeout_secs: u64 },
    /// Create the `fluxbooks` database if it does not exist.
    CreateDatabase,
    /// Make sure the backend runs and is healthy.
    EnsureBackend,
}

/// The next thing the startup does.
pub enum StartupAction {
    /// Report progress to the window.
    Emit(StartupProgress),
    /// Run an operation and report its outcome.
    Run(StartupOp),
    /// The startup is over, with this outcome.
    Finish(Result<(), String>),
}

pub enum StartupActionView {
    Emit { step: Seq<char>, message: Seq<char> },
    Run(StartupOp),
    Finish(Result<(), Seq<char>>),
}

impl View for StartupAction {
    type V = StartupActionView;

    open spec fn view(&self) -> StartupActionView {
        match self {
            StartupAction::Emit(p) => StartupActionView::Emit { step: p.step@, message: p.message@ },
            StartupAction::Run(op) => StartupActionView::Run(*op),
            StartupAction::Finish(Ok(())) => StartupActionView::Finish(Ok(())),
            StartupAction::Finish(Err(e)) => StartupActionView::Finish(Err(e@)),
        }
    }
}

/// The plain value of an outcome.
pub open spec fn outcome_view(o: Result<(), String>) -> Result<(), Seq<char>> {
    match o {
        Ok(()) => Ok(()),
        Err(e) => Err(e@),
    }
}

/// The steps of the startup, in order: four progress reports around the
/// five operations, a last report, then the end.
pub open spec fn startup_script(k: int) -> StartupActionView {
    if k == 0 {
        StartupActionView::Emit { step: "postgres_init"@, message: "Preparing database..."@ }
    } else if k == 1 {
        StartupActionView::Run(StartupOp::InitDb)
    } else if k == 2 {
        StartupActionView::Emit { step: "postgres_starting"@, message: "Starting database..."@ }
    } else if k == 3 {
        StartupActionView::Run(StartupOp::StartPostgres)
    } else if k == 4 {
        StartupActionView::Emit { step: "postgres_waiting"@, message: "Waiting for database..."@ }
    } else if k == 5 {
        StartupActionView::Run(StartupOp::WaitPostgres { timeout_secs: 30 })
    } else if k == 6 {
        StartupActionView::Run(StartupOp::CreateDatabase)
    } else if k == 7 {
        StartupActionView::Emit { step: "backend_starting"@, message: "Starting backend..."@ }
    } else if k == 8 {
        StartupActionView::Run(StartupOp::EnsureBackend)
    } else if k == 9 {
        StartupActionView::Emit { step: "ready"@, message: "Ready"@ }
    } else {
        StartupActionView::Finish(Ok(()))
    }
}

/// The last step of the script.
pub open spec fn last_step() -> int {
    10
}

/// Where the startup stands: the step of the script it is at, and the
/// error that stopped it, if one did.
pub struct Startup {
    step: u8,
    error: Option<String>,
}

impl Startup {
    /// The startup never goes past the end of its script.
    #[verifier::type_invariant]
    spec fn within_script(self) -> bool {
        self.step <= last_step()
    }
}

pub struct StartupView {
    pub step: int,
    pub error: Option<Seq<char>>,
}

impl View for Startup {
    type V = StartupView;

    closed spec fn view(&self) -> StartupView {
        StartupView { step: self.step as int, error: opt_view(self.error) }
    }
}

/// The plain value of an optional text.
pub open spec fn opt_view(v: Option<String>) -> Option<Seq<char>> {
    match v {
        Some(s) => Some(s@),
        None => None,
    }
}

/// What the startup does next: the step it is at, or the end with its error.
pub open spec fn startup_action(s: StartupView) -> StartupActionView {
    match s.error {
        Some(e) => StartupActionView::Finish(Err(e)),
        None => startup_script(s.step),
    }
}

/// Where the startup stands after the outcome of its current step: a
/// progress report always goes on; an operation goes on when it succeeded
/// and stops the startup with its error when it failed; the end stays.
pub open spec fn startup_after(s: StartupView, o: Result<(), Seq<char>>) -> StartupView {
    if s.error is Some || s.step >= last_step() {
        s
    } else {
        match startup_script(s.step) {
            StartupActionView::Run(_) => match o {
                Ok(()) => StartupView { step: s.step + 1, error: None },
                Err(e) => StartupView { step: s.step, error: Some(e) },
            },
            _ => StartupView { step: s.step + 1, error: None },
        }
    }
}

impl Startup {
    /// The startup before its first step.
    pub fn new() -> (s: Startup)
        ensures
            s@ == (StartupView { step: 0, error: None }),
    {
        Startup { step: 0, error: None }
    }

    /// What the startup does next.
    pub fn action(&self) -> (a: StartupAction)
        ensures
            a@ == startup_action(self@),
    {
        proof {
            use_type_invariant(self);
        }
        match &self.error {
            Some(e) => StartupAction::Finish(Err(e.clone())),
            None => {
                if self.step == 0 {
                    StartupAction::Emit(startup_progress("postgres_init", "Preparing database..."))
                } else if self.step == 1 {
                    StartupAction::Run(StartupOp::InitDb)
                } else if self.step == 2 {
                    StartupAction::Emit(startup_progress("postgres_starting", "Starting database..."))
                } else if self.step == 3 {
                    StartupAction::Run(StartupOp::StartPostgres)
                } else if self.step == 4 {
                    StartupAction::Emit(startup_progress("postgres_waiting", "Waiting for database..."))
                } else if self.step == 5 {
                    StartupAction::Run(StartupOp::WaitPostgres { timeout_secs: 30 })
                } else if self.step == 6 {
                    StartupAction::Run(StartupOp::CreateDatabase)
                } else if self.step == 7 {
                    StartupAction::Emit(startup_progress("backend_starting", "Starting backend..."))
                } else if self.step == 8 {
                    StartupAction::Run(StartupOp::EnsureBackend)
                } else if self.step == 9 {
                    StartupAction::Emit(startup_progress("ready", "Ready"))
                } else {
                    StartupAction::Finish(Ok(()))
                }
            },
        }
    }

    /// Takes the outcome of the current step.
    pub fn record(&mut self, outcome: Result<(), String>)
        ensures
            final(self)@ == startup_after(old(self)@, outcome_view(outcome)),
    {
        proof {
            use_type_invariant(&*self);
        }
        if self.error.is_some() || self.step >= 10 {
            return;
        }
        let is_op = self.step == 1 || self.step == 3 || self.step == 5 || self.step == 6
            || self.step == 8;
        if is_op {
            match outcome {
                Ok(()) => {
                    self.step = self.step + 1;
                },
                Err(e) => {
                    self.error = Some(e);
                },
            }
        } else {
            self.step = self.step + 1;
        }
    }

    /// The startup is over.
    pub fn is_over(&self) -> (b: bool)
        ensures
            b == (self@.error is Some || self@.step >= last_step()),
    {
        self.error.is_some() || self.step >= 10
    }
}

/// Where a startup stands after the outcomes `outs`, one per step, from
/// the first step.
pub open spec fn startup_run(outs: Seq<Result<(), Seq<char>>>) -> StartupView
    decreases outs.len(),
{
    if outs.len() == 0 {
        StartupView { step: 0, error: None }
    } else {
        startup_after(startup_run(outs.drop_last()), outs.last())
    }
}

/// Step `k` of the script runs an operation.
pub open spec fn is_op_step(k: int) -> bool {
    k == 1 || k == 3 || k == 5 || k == 6 || k == 8
}

proof fn lemma_startup_run(outs: Seq<Result<(), Seq<char>>>)
    ensures
        startup_run(outs).error is None ==> {
            &&& startup_run(outs).step == if outs.len() < 10 { outs.len() as int } else { 10 }
            &&& forall|k: int| 0 <= k < startup_run(outs).step && is_op_step(k) ==> #[trigger] outs[k] is Ok
        },
        startup_run(outs).error is Some ==> {
            let k = startup_run(outs).step;
            &&& 0 <= k < outs.len()
            &&& is_op_step(k)
            &&& outs[k] == Err::<(), Seq<char>>(startup_run(outs).error->0)
            &&& forall|j: int| 0 <= j < k && is_op_step(j) ==> #[trigger] outs[j] is Ok
        },
    decreases outs.len(),
{
    if outs.len() > 0 {
        let d = outs.drop_last();
        lemma_startup_run(d);
        assert forall|k: int| 0 <= k < d.len() implies #[trigger] outs[k] == d[k] by {}
    }
}

/// The startup ends ready only when every one of its five operations
/// succeeded, each run once and in order; when one fails, the startup stops
/// there and its error is that operation's error.
pub proof fn lemma_startup_outcome(outs: Seq<Result<(), Seq<char>>>)
    ensures
        startup_action(startup_run(outs)) == StartupActionView::Finish(Ok::<(), Seq<char>>(()))
            ==> outs.len() >= 10 && forall|k: int| #![trigger outs[k]] is_op_step(k) ==> outs[k] is Ok,
        startup_run(outs).error matches Some(e) ==> exists|k: int|
            0 <= k < outs.len() && is_op_step(k) && outs[k] == Err::<(), Seq<char>>(e) && forall|j: int|
                #![trigger outs[j]]
                0 <= j < k && is_op_step(j) ==> outs[j] is Ok,
{
    lemma_startup_run(outs);
    let s = startup_run(outs);
    if s.error is None && startup_action(s) == StartupActionView::Finish(Ok::<(), Seq<char>>(())) {
        assert(s.step >= 10);
    }
}

/// A service being waited for.
#[derive(Clone, Copy, Debug, PartialEq, Eq, Structural)]
pub enum PollTarget {
    /// PostgreSQL accepting connections.
    Postgres,
    /// The backend answering its health check.
    Backend,
}

/// The error of a wait that ran out of time.
pub open spec fn timeout_message(t: PollTarget) -> Seq<char> {
    match t {
        PollTarget::Postgres => "PostgreSQL did not become ready in time"@,
        PollTarget::Backend => "Backend did not become healthy in time"@,
    }
}

/// The next thing a wait does.
pub enum PollAction {
    /// Probe the service.
    Probe,
    /// Sleep this long, then look at the clock again.
    Sleep { ms: u64 },
    /// The service is up.
    Succeed,
    /// Time ran out.
    TimeOut { error: String },
}

/// A wait on a service, until a deadline (in milliseconds on the caller's
/// clock).
pub struct Poll {
    pub target: PollTarget,
    pub deadline_ms: u64,
}

impl Poll {
    /// A wait of `timeout_secs` seconds from `start_ms`.
    pub fn new(target: PollTarget, start_ms: u64, timeout_secs: u64) -> (p: Poll)
        requires
            start_ms + timeout_secs * 1000 <= u64::MAX,
        ensures
            p.target == target,
            p.deadline_ms == start_ms + timeout_secs * 1000,
    {
        Poll { target, deadline_ms: start_ms + timeout_secs * 1000 }
    }

    /// What to do at `now_ms`, before probing: probe while the deadline is
    /// ahead, else give up.
    pub fn before_probe(&self, now_ms: u64) -> (a: PollAction)
        ensures
            now_ms < self.deadline_ms ==> a is Probe,
            now_ms >= self.deadline_ms ==> (a matches PollAction::TimeOut { error } && error@
                == timeout_message(self.target)),
    {
        if now_ms < self.deadline_ms {
            PollAction::Probe
        } else {
            match self.target {
                PollTarget::Postgres => PollAction::TimeOut {
                    error: String::from_str("PostgreSQL did not become ready in time"),
                },
                PollTarget::Backend => PollAction::TimeOut {
                    error: String::from_str("Backend did not become healthy in time"),
                },
            }
        }
    }

    /// What to do after a probe: stop when the service is up, else sleep
    /// half a second.
    pub fn after_probe(&self, up: bool) -> (a: PollAction)
        ensures
            up ==> a is Succeed,
            !up ==> (a matches PollAction::Sleep { ms } && ms == 500),
    {
        if up {
            PollAction::Succeed
        } else {
            PollAction::Sleep { ms: 500 }
        }
    }
}

/// Where making sure of the backend stands.
#[derive(Clone, Copy, Debug, PartialEq, Eq, Structural)]
pub enum BackendStage {
    /// Checking whether the backend's port is taken.
    CheckingPort,
    /// The port is taken: probing whether it is the backend.
    ProbingExisting,
    /// Starting the bundled backend.
    Spawning,
    /// Waiting for the started backend to be healthy.
    AwaitingHealth,
    /// Over.
    Done,
}

/// The next thing to do to make sure of the backend.
pub enum BackendAction {
    /// Check whether the port is taken.
    CheckPort { port: u16 },
    /// Probe the health endpoint once.
    ProbeHealth,
    /// Start the bundled backend.
    Spawn,
    /// Wait, at most this long, for it to be healthy.
    WaitHealthy { timeout_secs: u64 },
    /// Over, with this outcome.
    Finish(Result<(), String>),
}

/// What the outside work gave.
pub enum BackendEvent {
    PortInUse(bool),
    Healthy(bool),
    Spawned(Result<(), String>),
    WaitDone(Result<(), String>),
}

/// The error when the backend's port is taken by something else.
pub open spec fn port_taken_message() -> Seq<char> {
    "Port 3001 is in use by another process"@
}

/// The port the backend listens on.
pub open spec fn backend_port() -> u16 {
    3001
}

/// Making sure the backend runs: if its port is taken, it must be the
/// backend (healthy); else the bundled one is started and waited for.
pub struct BackendEnsure {
    pub stage: BackendStage,
}

impl BackendEnsure {
    /// The start: check the backend's port.
    pub fn start() -> (r: (BackendEnsure, BackendAction))
        ensures
            r.0.stage == BackendStage::CheckingPort,
            r.1 matches BackendAction::CheckPort { port } && port == backend_port(),
    {
        (BackendEnsure { stage: BackendStage::CheckingPort }, BackendAction::CheckPort { port: 3001 })
    }

    /// Takes what the last action gave; returns the next action, or none
    /// when the event was not awaited (nothing changes then).
    pub fn on(&mut self, e: BackendEvent) -> (a: Option<BackendAction>)
        ensures
            match (old(self).stage, e) {
                (BackendStage::CheckingPort, BackendEvent::PortInUse(true)) => final(self).stage
                    == BackendStage::ProbingExisting && a matches Some(BackendAction::ProbeHealth),
                (BackendStage::CheckingPort, BackendEvent::PortInUse(false)) => final(self).stage
                    == BackendStage::Spawning && a matches Some(BackendAction::Spawn),
                (BackendStage::ProbingExisting, BackendEvent::Healthy(true)) => final(self).stage
                    == BackendStage::Done && a matches Some(BackendAction::Finish(Ok(()))),
                (BackendStage::ProbingExisting, BackendEvent::Healthy(false)) => final(self).stage
                    == BackendStage::Done && (a matches Some(BackendAction::Finish(Err(msg)))
                    && msg@ == port_taken_message()),
                (BackendStage::Spawning, BackendEvent::Spawned(Ok(()))) => final(self).stage
                    == BackendStage::AwaitingHealth && (a matches Some(
                    BackendAction::WaitHealthy { timeout_secs },
                ) && timeout_secs == 30),
                (BackendStage::Spawning, BackendEvent::Spawned(Err(err))) => final(self).stage
                    == BackendStage::Done && (a matches Some(BackendAction::Finish(Err(msg)))
                    && msg@ == err@),
                (BackendStage::AwaitingHealth, BackendEvent::WaitDone(r)) => final(self).stage
                    == BackendStage::Done && (a matches Some(BackendAction::Finish(out))
                    && outcome_view(out) == outcome_view(r)),
                _ => final(self).stage == old(self).stage && a is None,
            },
    {
        match (self.stage, e) {
            (BackendStage::CheckingPort, BackendEvent::PortInUse(in_use)) => {
                if in_use {
                    self.stage = BackendStage::ProbingExisting;
                    Some(BackendAction::ProbeHealth)
                } else {
                    self.stage = BackendStage::Spawning;
                    Some(BackendAction::Spawn)
                }
            },
            (BackendStage::ProbingExisting, BackendEvent::Healthy(up)) => {
                self.stage = BackendStage::Done;
                if up {
                    Some(BackendAction::Finish(Ok(())))
                } else {
                    Some(
                        BackendAction::Finish(
                            Err(String::from_str("Port 3001 is in use by another process")),
                        ),
                    )
                }
            },
            (BackendStage::Spawning, BackendEvent::Spawned(r)) => {
                match r {
                    Ok(()) => {
                        self.stage = BackendStage::AwaitingHealth;
                        Some(BackendAction::WaitHealthy { timeout_secs: 30 })
                    },
                    Err(err) => {
                        self.stage = BackendStage::Done;
                        Some(BackendAction::Finish(Err(err)))
                    },
                }
            },
            (BackendStage::AwaitingHealth, BackendEvent::WaitDone(r)) => {
                self.stage = BackendStage::Done;
                Some(BackendAction::Finish(r))
            },
            _ => None,
        }
    }
}

/// Where initialising the database cluster stands.
#[derive(Clone, Copy, Debug, PartialEq, Eq, Structural)]
pub enum InitDbStage {
    /// Looking for the marker of an initialised data directory.
    CheckingMarker,
    /// Creating the data directory.
    CreatingDataDir,
    /// Running `initdb`.
    RunningInitdb,
    /// Over.
    Done,
}

/// The next thing to do to initialise the cluster.
pub enum InitDbAction {
    /// Look whether the data directory holds its version marker.
    CheckMarker,
    /// Create the data directory (and its parents).
    CreateDataDir,
    /// Run `initdb` with `initdb_args`.
    RunInitdb,
    /// Over, with this outcome.
    Finish(Result<(), String>),
}

/// What the outside work gave.
pub enum InitDbEvent {
    /// Whether the marker is there.
    MarkerExists(bool),
    /// The data directory was created, or the error.
    DataDirCreated(Result<(), String>),
    /// `initdb` ran, and whether it succeeded; or the error that kept it
    /// from starting.
    InitdbRan(Result<bool, String>),
}

/// Initialising the database cluster, once: nothing is done when the data
/// directory is already initialised.
pub struct InitDb {
    pub stage: InitDbStage,
}

impl InitDb {
    /// The start: look for the marker.
    pub fn start() -> (r: (InitDb, InitDbAction))
        ensures
            r.0.stage == InitDbStage::CheckingMarker,
            r.1 is CheckMarker,
    {
        (InitDb { stage: InitDbStage::CheckingMarker }, InitDbAction::CheckMarker)
    }

    /// Takes what the last action gave; returns the next action, or none
    /// when the event was not awaited (nothing changes then).
    pub fn on(&mut self, e: InitDbEvent) -> (a: Option<InitDbAction>)
        ensures
            match (old(self).stage, e) {
                (InitDbStage::CheckingMarker, InitDbEvent::MarkerExists(true)) => final(self).stage
                    == InitDbStage::Done && (a matches Some(InitDbAction::Finish(Ok(())))),
                (InitDbStage::CheckingMarker, InitDbEvent::MarkerExists(false)) => final(self).stage
                    == InitDbStage::CreatingDataDir && (a matches Some(InitDbAction::CreateDataDir)),
                (InitDbStage::CreatingDataDir, InitDbEvent::DataDirCreated(Ok(()))) => final(self).stage == InitDbStage::RunningInitdb && (a matches Some(InitDbAction::RunInitdb)),
                (InitDbStage::CreatingDataDir, InitDbEvent::DataDirCreated(Err(err))) => final(self).stage == InitDbStage::Done && (a matches Some(InitDbAction::Finish(Err(msg)))
                    && msg@ == err@),
                (InitDbStage::RunningInitdb, InitDbEvent::InitdbRan(Ok(true))) => final(self).stage
                    == InitDbStage::Done && (a matches Some(InitDbAction::Finish(Ok(())))),
                (InitDbStage::RunningInitdb, InitDbEvent::InitdbRan(Ok(false))) => final(self).stage
                    == InitDbStage::Done && (a matches Some(InitDbAction::Finish(Err(msg))) && msg@
                    == "initdb exited with non-zero status"@),
                (InitDbStage::RunningInitdb, InitDbEvent::InitdbRan(Err(err))) => final(self).stage
                    == InitDbStage::Done && (a matches Some(InitDbAction::Finish(Err(msg))) && msg@
                    == "initdb failed to launch: "@ + err@),
                _ => final(self).stage == old(self).stage && a is None,
            },
    {
        match (self.stage, e) {
            (InitDbStage::CheckingMarker, InitDbEvent::MarkerExists(exists)) => {
                if exists {
                    self.stage = InitDbStage::Done;
                    Some(InitDbAction::Finish(Ok(())))
                } else {
                    self.stage = InitDbStage::CreatingDataDir;
                    Some(InitDbAction::CreateDataDir)
                }
            },
            (InitDbStage::CreatingDataDir, InitDbEvent::DataDirCreated(r)) => match r {
                Ok(()) => {
                    self.stage = InitDbStage::RunningInitdb;
                    Some(InitDbAction::RunInitdb)
                },
                Err(err) => {
                    self.stage = InitDbStage::Done;
                    Some(InitDbAction::Finish(Err(err)))
                },
            },
            (InitDbStage::RunningInitdb, InitDbEvent::InitdbRan(r)) => {
                self.stage = InitDbStage::Done;
                match r {
                    Ok(true) => Some(InitDbAction::Finish(Ok(()))),
                    Ok(false) => Some(InitDbAction::Finish(Err(initdb_status_error()))),
                    Err(err) => Some(InitDbAction::Finish(Err(initdb_launch_error(err.as_str())))),
                }
            },
            _ => None,
        }
    }
}

} // verus!
