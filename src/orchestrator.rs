use vstd::prelude::*;
use crate::error::{Call, Error, Fault, SourceError};
use crate::model::{InitRequest, InitResult, SealStatus, UnsealRequest};
use crate::plan::{Mode, Plan};
use crate::source::SnapshotSource;

verus! {

/// Pause between two unanswered liveness probes, in milliseconds.
pub const POLL_INTERVAL_MS: u64 = 1000;

/// A remote operation, or a pause, that the driver performs next.
#[derive(Debug, Clone)]
pub enum Action {
    /// `HEAD /v1/sys/health`; any HTTP answer counts as reachable.
    Probe,
    /// Sleep, then report `Outcome::Resumed`.
    Pause { millis: u64 },
    /// `GET /v1/sys/seal-status`.
    ReadSealStatus,
    /// `POST /v1/sys/init`.
    Initialize(InitRequest),
    /// `POST /v1/sys/unseal`.
    Unseal(UnsealRequest),
    /// `POST /v1/sys/storage/raft/snapshot-force` with the snapshot's bytes.
    ForceSnapshot(SnapshotSource),
}

/// HTTP method of a control-plane call.
#[derive(Debug, Clone, Copy, PartialEq, Eq, Structural)]
pub enum Method {
    Head,
    Get,
    Post,
}

impl Action {
    /// The control-plane call that performs this action, as a method and a
    /// path under the API's `/v1` prefix; a pause calls nothing.
    pub fn endpoint(&self) -> (r: Option<(Method, &'static str)>)
        ensures
            self is Pause <==> r is None,
            self is Probe ==> r == Some((Method::Head, "/sys/health")),
            self is ReadSealStatus ==> r == Some((Method::Get, "/sys/seal-status")),
            self is Initialize ==> r == Some((Method::Post, "/sys/init")),
            self is Unseal ==> r == Some((Method::Post, "/sys/unseal")),
            self is ForceSnapshot ==> r == Some(
                (Method::Post, "/sys/storage/raft/snapshot-force"),
            ),
    {
        match self {
            Action::Probe => Some((Method::Head, "/sys/health")),
            Action::Pause { .. } => None,
            Action::ReadSealStatus => Some((Method::Get, "/sys/seal-status")),
            Action::Initialize(_) => Some((Method::Post, "/sys/init")),
            Action::Unseal(_) => Some((Method::Post, "/sys/unseal")),
            Action::ForceSnapshot(_) => Some((Method::Post, "/sys/storage/raft/snapshot-force")),
        }
    }
}

/// What the driver observed when it performed the pending action.
#[derive(Debug, Clone)]
pub enum Outcome {
    /// The probe got an HTTP answer, whatever its status code.
    Reachable,
    /// The probe failed at the connection level: refused, DNS failure or
    /// timeout.
    Unreachable,
    /// The pause is over.
    Resumed,
    /// The seal status was read.
    Status(SealStatus),
    /// Initialization answered with key material.
    Initialized(InitResult),
    /// The unseal call answered with the resulting seal status.
    Unsealed(SealStatus),
    /// The snapshot-force call completed.
    SnapshotRestored,
    /// The snapshot's local file could not be opened.
    SourceUnreadable(String),
    /// The call failed: transport error, non-success status or malformed body;
    /// for a probe, a failure other than at the connection level.
    Failed(String),
}

/// How a run that succeeded ended.
#[derive(Debug, Clone)]
pub struct Report {
    /// The key material, when this run initialized the cluster.
    pub init: Option<InitResult>,
    /// The last seal status read or returned by the unseal call; none when
    /// the run only waited for the server.
    pub status: Option<SealStatus>,
}

/// What the orchestrator asks of the driver.
#[derive(Debug, Clone)]
pub enum Step {
    Perform(Action),
    Done(Report),
    Abort(Error),
}

/// Where a run stands; each stage but `Finished` waits for one outcome.
#[derive(Debug, Clone)]
pub enum Stage {
    /// A probe is out; `attempts` probes have been sent so far.
    Probing { attempts: u64 },
    /// A pause follows `attempts` unanswered probes.
    Pausing { attempts: u64 },
    BootstrapReading,
    BootstrapInitializing,
    /// The first key of `init` was submitted to unseal the new cluster.
    BootstrapSelfUnsealing { init: InitResult },
    RestoreReading,
    RestoreInitializing,
    RestoreRereading,
    RestoreSnapshotting,
    /// The unsealer reads the status before it submits `key`.
    UnsealReading { key: String, init: Option<InitResult> },
    UnsealSubmitting { init: Option<InitResult> },
    Finished,
}

/// The lifecycle orchestrator: a plan and the stage reached under it.
#[derive(Debug, Clone)]
pub struct Orchestrator {
    pub plan: Plan,
    pub stage: Stage,
}

/// The step that follows the first answered probe.
pub open spec fn after_reach(plan: Plan) -> (Stage, Step) {
    match plan.mode {
        Mode::WaitForServer => (Stage::Finished, Step::Done(Report { init: None, status: None })),
        Mode::Bootstrap => (Stage::BootstrapReading, Step::Perform(Action::ReadSealStatus)),
        Mode::Restore => (Stage::RestoreReading, Step::Perform(Action::ReadSealStatus)),
    }
}

pub open spec fn single_share_request() -> InitRequest {
    InitRequest { secret_shares: 1, secret_threshold: 1 }
}

pub open spec fn unseal_request(key: String) -> UnsealRequest {
    UnsealRequest { key, reset: None, migrate: None }
}

pub open spec fn abort(e: Error) -> (Stage, Step) {
    (Stage::Finished, Step::Abort(e))
}

pub open spec fn failure(call: Call, detail: String) -> (Stage, Step) {
    abort(Error::ControlPlane { call, fault: Fault::Reported(detail) })
}

/// One attempt more, saturating.
pub open spec fn next_attempt(a: u64) -> u64 {
    if a < u64::MAX { (a + 1) as u64 } else { a }
}

/// The next stage and step, for a plan, the stage reached and the outcome of
/// the pending action.
pub open spec fn transition(plan: Plan, stage: Stage, outcome: Outcome) -> (Stage, Step) {
    match (stage, outcome) {
        (Stage::Probing { attempts }, Outcome::Reachable) => after_reach(plan),
        (Stage::Probing { attempts }, Outcome::Unreachable) => {
            if plan.probe_limit matches Some(l) && attempts >= l {
                abort(Error::Unreachable { probes: attempts })
            } else {
                (Stage::Pausing { attempts }, Step::Perform(Action::Pause { millis: POLL_INTERVAL_MS }))
            }
        },
        (Stage::Probing { attempts }, Outcome::Failed(d)) => failure(Call::Health, d),
        (Stage::Pausing { attempts }, Outcome::Resumed) => {
            (Stage::Probing { attempts: next_attempt(attempts) }, Step::Perform(Action::Probe))
        },
        (Stage::BootstrapReading, Outcome::Status(s)) => {
            if s.initialized {
                abort(Error::AlreadyInitialized)
            } else {
                (
                    Stage::BootstrapInitializing,
                    Step::Perform(Action::Initialize(single_share_request())),
                )
            }
        },
        (Stage::BootstrapReading, Outcome::Failed(d)) => failure(Call::SealStatus, d),
        (Stage::BootstrapInitializing, Outcome::Initialized(r)) => {
            if r.keys@.len() == 1 {
                (
                    Stage::BootstrapSelfUnsealing { init: r },
                    Step::Perform(Action::Unseal(unseal_request(r.keys@[0]))),
                )
            } else {
                abort(
                    Error::ControlPlane { call: Call::Init, fault: Fault::KeyCount(r.keys@.len() as usize) },
                )
            }
        },
        (Stage::BootstrapInitializing, Outcome::Failed(d)) => failure(Call::Init, d),
        (Stage::BootstrapSelfUnsealing { init }, Outcome::Unsealed(s)) => {
            (
                Stage::UnsealReading { key: init.keys@[0], init: Some(init) },
                Step::Perform(Action::ReadSealStatus),
            )
        },
        (Stage::BootstrapSelfUnsealing { init }, Outcome::Failed(d)) => failure(Call::Unseal, d),
        (Stage::RestoreReading, Outcome::Status(s)) => {
            (Stage::RestoreInitializing, Step::Perform(Action::Initialize(single_share_request())))
        },
        (Stage::RestoreReading, Outcome::Failed(d)) => failure(Call::SealStatus, d),
        (Stage::RestoreInitializing, Outcome::Initialized(r)) => {
            (Stage::RestoreRereading, Step::Perform(Action::ReadSealStatus))
        },
        (Stage::RestoreInitializing, Outcome::Failed(d)) => {
            (Stage::RestoreRereading, Step::Perform(Action::ReadSealStatus))
        },
        (Stage::RestoreRereading, Outcome::Status(s)) => {
            (
                Stage::RestoreSnapshotting,
                Step::Perform(Action::ForceSnapshot(plan.snapshot->Some_0)),
            )
        },
        (Stage::RestoreRereading, Outcome::Failed(d)) => failure(Call::SealStatus, d),
        (Stage::RestoreSnapshotting, Outcome::SnapshotRestored) => {
            (
                Stage::UnsealReading { key: plan.unseal_key->Some_0, init: None },
                Step::Perform(Action::ReadSealStatus),
            )
        },
        (Stage::RestoreSnapshotting, Outcome::SourceUnreadable(d)) => {
            abort(Error::SourceResolution(SourceError::Unreadable(d)))
        },
        (Stage::RestoreSnapshotting, Outcome::Failed(d)) => failure(Call::SnapshotForce, d),
        (Stage::UnsealReading { key, init }, Outcome::Status(s)) => {
            if s.sealed {
                (Stage::UnsealSubmitting { init }, Step::Perform(Action::Unseal(unseal_request(key))))
            } else {
                (Stage::Finished, Step::Done(Report { init, status: Some(s) }))
            }
        },
        (Stage::UnsealReading { key, init }, Outcome::Failed(d)) => failure(Call::SealStatus, d),
        (Stage::UnsealSubmitting { init }, Outcome::Unsealed(s)) => {
            (Stage::Finished, Step::Done(Report { init, status: Some(s) }))
        },
        (Stage::UnsealSubmitting { init }, Outcome::Failed(d)) => failure(Call::Unseal, d),
        _ => abort(Error::OutOfOrder),
    }
}

/// The stages that a flow passes through belong to its plan's mode, and the
/// self-unseal stage holds the key material of a single share.
pub open spec fn stage_wf(plan: Plan, stage: Stage) -> bool {
    match stage {
        Stage::BootstrapReading | Stage::BootstrapInitializing => plan.mode == Mode::Bootstrap,
        Stage::BootstrapSelfUnsealing { init } => plan.mode == Mode::Bootstrap && init.keys@.len()
            == 1,
        Stage::RestoreReading
        | Stage::RestoreInitializing
        | Stage::RestoreRereading
        | Stage::RestoreSnapshotting => plan.mode == Mode::Restore,
        _ => true,
    }
}

impl Orchestrator {
    pub open spec fn wf(&self) -> bool {
        self.plan.wf() && stage_wf(self.plan, self.stage)
    }

    /// A run starts with a liveness probe.
    pub fn start(plan: Plan) -> (r: (Orchestrator, Step))
        requires
            plan.wf(),
        ensures
            r.0.wf(),
            r.0.plan == plan,
            r.0.stage == (Stage::Probing { attempts: 1 }),
            r.1 == Step::Perform(Action::Probe),
    {
        (Orchestrator { plan, stage: Stage::Probing { attempts: 1 } }, Step::Perform(Action::Probe))
    }

    /// Takes the outcome of the pending action and moves to the next stage.
    /// The plan is kept; the step is the next action, or the end of the run.
    pub fn advance(self, outcome: Outcome) -> (r: (Orchestrator, Step))
        requires
            self.wf(),
        ensures
            r.0.wf(),
            r.0.plan == self.plan,
            (r.0.stage, r.1) == transition(self.plan, self.stage, outcome),
    {
        let plan = self.plan;
        let (stage, step) = match (self.stage, outcome) {
            (Stage::Probing { attempts }, Outcome::Reachable) => Self::reached(&plan),
            (Stage::Probing { attempts }, Outcome::Unreachable) => {
                let exhausted = match plan.probe_limit {
                    Some(l) => attempts >= l,
                    None => false,
                };
                if exhausted {
                    (Stage::Finished, Step::Abort(Error::Unreachable { probes: attempts }))
                } else {
                    (
                        Stage::Pausing { attempts },
                        Step::Perform(Action::Pause { millis: POLL_INTERVAL_MS }),
                    )
                }
            },
            (Stage::Probing { attempts }, Outcome::Failed(d)) => Self::failed(Call::Health, d),
            (Stage::Pausing { attempts }, Outcome::Resumed) => {
                let next = if attempts < u64::MAX { attempts + 1 } else { attempts };
                (Stage::Probing { attempts: next }, Step::Perform(Action::Probe))
            },
            (Stage::BootstrapReading, Outcome::Status(s)) => {
                if s.initialized {
                    (Stage::Finished, Step::Abort(Error::AlreadyInitialized))
                } else {
                    (
                        Stage::BootstrapInitializing,
                        Step::Perform(Action::Initialize(InitRequest::single_share())),
                    )
                }
            },
            (Stage::BootstrapReading, Outcome::Failed(d)) => Self::failed(Call::SealStatus, d),
            (Stage::BootstrapInitializing, Outcome::Initialized(r)) => {
                if r.keys.len() == 1 {
                    let key = r.keys[0].clone();
                    (
                        Stage::BootstrapSelfUnsealing { init: r },
                        Step::Perform(Action::Unseal(UnsealRequest::with_key(key))),
                    )
                } else {
                    let count = r.keys.len();
                    (
                        Stage::Finished,
                        Step::Abort(Error::ControlPlane { call: Call::Init, fault: Fault::KeyCount(count) }),
                    )
                }
            },
            (Stage::BootstrapInitializing, Outcome::Failed(d)) => Self::failed(Call::Init, d),
            (Stage::BootstrapSelfUnsealing { init }, Outcome::Unsealed(s)) => {
                let key = init.keys[0].clone();
                (Stage::UnsealReading { key, init: Some(init) }, Step::Perform(Action::ReadSealStatus))
            },
            (Stage::BootstrapSelfUnsealing { init }, Outcome::Failed(d)) => Self::failed(
                Call::Unseal,
                d,
            ),
            (Stage::RestoreReading, Outcome::Status(s)) => {
                (
                    Stage::RestoreInitializing,
                    Step::Perform(Action::Initialize(InitRequest::single_share())),
                )
            },
            (Stage::RestoreReading, Outcome::Failed(d)) => Self::failed(Call::SealStatus, d),
            (Stage::RestoreInitializing, Outcome::Initialized(r)) => {
                (Stage::RestoreRereading, Step::Perform(Action::ReadSealStatus))
            },
            (Stage::RestoreInitializing, Outcome::Failed(d)) => {
                (Stage::RestoreRereading, Step::Perform(Action::ReadSealStatus))
            },
            (Stage::RestoreRereading, Outcome::Status(s)) => {
                let snapshot = plan.snapshot.as_ref().unwrap().duplicate();
                (Stage::RestoreSnapshotting, Step::Perform(Action::ForceSnapshot(snapshot)))
            },
            (Stage::RestoreRereading, Outcome::Failed(d)) => Self::failed(Call::SealStatus, d),
            (Stage::RestoreSnapshotting, Outcome::SnapshotRestored) => {
                let key = plan.unseal_key.as_ref().unwrap().clone();
                (Stage::UnsealReading { key, init: None }, Step::Perform(Action::ReadSealStatus))
            },
            (Stage::RestoreSnapshotting, Outcome::SourceUnreadable(d)) => {
                (Stage::Finished, Step::Abort(Error::SourceResolution(SourceError::Unreadable(d))))
            },
            (Stage::RestoreSnapshotting, Outcome::Failed(d)) => Self::failed(Call::SnapshotForce, d),
            (Stage::UnsealReading { key, init }, Outcome::Status(s)) => {
                if s.sealed {
                    (
                        Stage::UnsealSubmitting { init },
                        Step::Perform(Action::Unseal(UnsealRequest::with_key(key))),
                    )
                } else {
                    (Stage::Finished, Step::Done(Report { init, status: Some(s) }))
                }
            },
            (Stage::UnsealReading { key, init }, Outcome::Failed(d)) => Self::failed(
                Call::SealStatus,
                d,
            ),
            (Stage::UnsealSubmitting { init }, Outcome::Unsealed(s)) => {
                (Stage::Finished, Step::Done(Report { init, status: Some(s) }))
            },
            (Stage::UnsealSubmitting { init }, Outcome::Failed(d)) => Self::failed(Call::Unseal, d),
            _ => (Stage::Finished, Step::Abort(Error::OutOfOrder)),
        };
        (Orchestrator { plan, stage }, step)
    }

    fn reached(plan: &Plan) -> (r: (Stage, Step))
        ensures
            r == after_reach(*plan),
    {
        match plan.mode {
            Mode::WaitForServer => (Stage::Finished, Step::Done(Report { init: None, status: None })),
            Mode::Bootstrap => (Stage::BootstrapReading, Step::Perform(Action::ReadSealStatus)),
            Mode::Restore => (Stage::RestoreReading, Step::Perform(Action::ReadSealStatus)),
        }
    }

    fn failed(call: Call, detail: String) -> (r: (Stage, Step))
        ensures
            r == failure(call, detail),
    {
        (Stage::Finished, Step::Abort(Error::ControlPlane { call, fault: Fault::Reported(detail) }))
    }
}

} // verus!
