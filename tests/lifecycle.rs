use vault_bootstrap::error::{Call, Error, Fault, Input, SourceError};
use vault_bootstrap::model::{InitRequest, InitResult, SealStatus, UnsealRequest};
use vault_bootstrap::orchestrator::{Action, Method, Orchestrator, Outcome, Report, Stage, Step, POLL_INTERVAL_MS};
use vault_bootstrap::plan::{prepare, Mode, Plan};
use vault_bootstrap::source::{resolve, SnapshotRef, SnapshotSource};

fn status(initialized: bool, sealed: bool) -> SealStatus {
    SealStatus {
        seal_type: "shamir".to_string(),
        initialized,
        sealed,
        t: 1,
        n: 1,
        progress: 0,
        nonce: String::new(),
        version: "1.15.0".to_string(),
        build_date: "2023-09-22T16:53:10Z".to_string(),
        migration: false,
        recovery_seal: false,
        storage_type: "raft".to_string(),
    }
}

fn one_key(key: &str) -> InitResult {
    InitResult {
        keys: vec![key.to_string()],
        keys_base64: vec![format!("{key}=")],
        root_token: "hvs.root".to_string(),
    }
}

fn file_ref(path: &str) -> SnapshotRef {
    SnapshotRef { scheme: "file".to_string(), file_path: Some(path.to_string()) }
}

/// A server that answers the orchestrator's actions.
struct FakeVault {
    down_for: u32,
    initialized: bool,
    sealed: bool,
    key: String,
    data: String,
    snapshot_data: String,
    probes: u32,
    pauses: u32,
    init_requests: Vec<InitRequest>,
    unseal_requests: Vec<UnsealRequest>,
}

impl FakeVault {
    fn new(down_for: u32) -> Self {
        FakeVault {
            down_for,
            initialized: false,
            sealed: true,
            key: String::new(),
            data: String::new(),
            snapshot_data: "from snapshot".to_string(),
            probes: 0,
            pauses: 0,
            init_requests: Vec::new(),
            unseal_requests: Vec::new(),
        }
    }

    fn perform(&mut self, action: Action) -> Outcome {
        match action {
            Action::Probe => {
                self.probes += 1;
                if self.probes > self.down_for { Outcome::Reachable } else { Outcome::Unreachable }
            }
            Action::Pause { millis } => {
                assert_eq!(millis, POLL_INTERVAL_MS);
                self.pauses += 1;
                Outcome::Resumed
            }
            Action::ReadSealStatus => Outcome::Status(status(self.initialized, self.sealed)),
            Action::Initialize(req) => {
                self.init_requests.push(req);
                if self.initialized {
                    Outcome::Failed("Vault is already initialized".to_string())
                } else {
                    self.initialized = true;
                    self.key = "k-123".to_string();
                    Outcome::Initialized(one_key("k-123"))
                }
            }
            Action::Unseal(req) => {
                if req.key == self.key {
                    self.sealed = false;
                }
                self.unseal_requests.push(req);
                Outcome::Unsealed(status(self.initialized, self.sealed))
            }
            Action::ForceSnapshot(SnapshotSource::LocalFile { path }) => {
                assert_eq!(path, "/backups/vault.snap");
                self.data = self.snapshot_data.clone();
                self.sealed = true;
                Outcome::SnapshotRestored
            }
        }
    }
}

fn drive(plan: Plan, vault: &mut FakeVault) -> Result<Report, Error> {
    let (mut orch, mut step) = Orchestrator::start(plan);
    for _ in 0..100 {
        match step {
            Step::Perform(action) => {
                let outcome = vault.perform(action);
                let (next, s) = orch.advance(outcome);
                orch = next;
                step = s;
            }
            Step::Done(report) => return Ok(report),
            Step::Abort(e) => return Err(e),
        }
    }
    panic!("run did not end");
}

fn bootstrap_plan() -> Plan {
    prepare(Mode::Bootstrap, None, None, None).unwrap()
}

fn restore_plan(key: &str) -> Plan {
    prepare(Mode::Restore, Some(file_ref("/backups/vault.snap")), Some(key.to_string()), None).unwrap()
}

#[test]
fn bootstrap_after_three_missed_probes() {
    let mut vault = FakeVault::new(3);
    let report = drive(bootstrap_plan(), &mut vault).unwrap();
    assert_eq!(vault.probes, 4);
    assert_eq!(vault.pauses, 3);
    assert_eq!(vault.init_requests, vec![InitRequest { secret_shares: 1, secret_threshold: 1 }]);
    let init = report.init.unwrap();
    assert_eq!(init.keys, vec!["k-123".to_string()]);
    let last = report.status.unwrap();
    assert!(last.initialized);
    assert!(!last.sealed);
    assert_eq!(vault.unseal_requests.len(), 1);
    assert_eq!(vault.unseal_requests[0].key, "k-123");
    assert_eq!(vault.unseal_requests[0].reset, None);
    assert_eq!(vault.unseal_requests[0].migrate, None);
}

#[test]
fn restore_over_stale_data() {
    let mut vault = FakeVault::new(0);
    vault.initialized = true;
    vault.sealed = true;
    vault.key = "operator-key".to_string();
    vault.data = "stale".to_string();
    let report = drive(restore_plan("operator-key"), &mut vault).unwrap();
    assert!(report.init.is_none());
    assert!(!report.status.unwrap().sealed);
    assert!(!vault.sealed);
    assert_eq!(vault.data, "from snapshot");
    // the restore flow issues its init request whatever the cluster's state
    assert_eq!(vault.init_requests.len(), 1);
    assert_eq!(vault.unseal_requests.len(), 1);
}

#[test]
fn restore_with_wrong_key_stays_sealed() {
    let mut vault = FakeVault::new(0);
    vault.initialized = true;
    vault.key = "operator-key".to_string();
    let report = drive(restore_plan("not-the-key"), &mut vault).unwrap();
    let last = report.status.unwrap();
    assert!(last.sealed);
    assert_eq!(last.progress, 0);
    assert_eq!(vault.unseal_requests[0].key, "not-the-key");
}

#[test]
fn bootstrap_of_initialized_cluster_is_refused() {
    let mut vault = FakeVault::new(0);
    vault.initialized = true;
    let r = drive(bootstrap_plan(), &mut vault);
    assert!(matches!(r, Err(Error::AlreadyInitialized)));
    assert!(vault.init_requests.is_empty());
    assert!(vault.unseal_requests.is_empty());
}

#[test]
fn unsealed_cluster_gets_no_unseal_request() {
    let plan = restore_plan("operator-key");
    let orch = Orchestrator { plan, stage: Stage::UnsealReading { key: "operator-key".to_string(), init: None } };
    let (orch, step) = orch.advance(Outcome::Status(status(true, false)));
    match step {
        Step::Done(report) => assert!(!report.status.unwrap().sealed),
        other => panic!("unexpected step {other:?}"),
    }
    assert!(matches!(orch.stage, Stage::Finished));
}

#[test]
fn wait_for_server_stops_at_first_answer() {
    let mut vault = FakeVault::new(2);
    let plan = prepare(Mode::WaitForServer, None, None, None).unwrap();
    let report = drive(plan, &mut vault).unwrap();
    assert!(report.init.is_none());
    assert!(report.status.is_none());
    assert_eq!(vault.probes, 3);
    assert_eq!(vault.pauses, 2);
}

#[test]
fn probe_limit_ends_the_wait() {
    let mut vault = FakeVault::new(10);
    let plan = prepare(Mode::Bootstrap, None, None, Some(3)).unwrap();
    let r = drive(plan, &mut vault);
    assert!(matches!(r, Err(Error::Unreachable { probes: 3 })));
    assert_eq!(vault.probes, 3);
    assert_eq!(vault.pauses, 2);
}

#[test]
fn probe_limit_zero_gives_up_after_first_probe() {
    let mut vault = FakeVault::new(1);
    let plan = prepare(Mode::WaitForServer, None, None, Some(0)).unwrap();
    assert!(matches!(drive(plan, &mut vault), Err(Error::Unreachable { probes: 1 })));
}

#[test]
fn restore_needs_a_snapshot() {
    let r = prepare(Mode::Restore, None, Some("k".to_string()), None);
    assert!(matches!(r, Err(Error::MissingInput(Input::SnapshotSource))));
}

#[test]
fn restore_needs_a_key() {
    let r = prepare(Mode::Restore, Some(file_ref("/backups/vault.snap")), None, None);
    assert!(matches!(r, Err(Error::MissingInput(Input::UnsealKey))));
}

#[test]
fn restore_refuses_remote_scheme() {
    let r = prepare(
        Mode::Restore,
        Some(SnapshotRef { scheme: "https".to_string(), file_path: None }),
        Some("k".to_string()),
        None,
    );
    match r {
        Err(Error::SourceResolution(SourceError::UnsupportedScheme(s))) => assert_eq!(s, "https"),
        other => panic!("unexpected {other:?}"),
    }
}

#[test]
fn bootstrap_ignores_snapshot_and_key() {
    let plan = prepare(
        Mode::Bootstrap,
        Some(SnapshotRef { scheme: "s3".to_string(), file_path: None }),
        Some("k".to_string()),
        Some(5),
    )
    .unwrap();
    assert_eq!(plan.mode, Mode::Bootstrap);
    assert!(plan.snapshot.is_none());
    assert!(plan.unseal_key.is_none());
    assert_eq!(plan.probe_limit, Some(5));
}

#[test]
fn resolve_local_file() {
    match resolve(file_ref("/tmp/a.snap")) {
        Ok(SnapshotSource::LocalFile { path }) => assert_eq!(path, "/tmp/a.snap"),
        other => panic!("unexpected {other:?}"),
    }
}

#[test]
fn resolve_file_without_path() {
    let r = resolve(SnapshotRef { scheme: "file".to_string(), file_path: None });
    assert!(matches!(r, Err(SourceError::NotALocalPath)));
}

#[test]
fn resolve_scheme_is_case_exact() {
    let r = resolve(SnapshotRef { scheme: "fil".to_string(), file_path: Some("/x".to_string()) });
    assert!(matches!(r, Err(SourceError::UnsupportedScheme(_))));
}

#[test]
fn init_with_two_keys_is_rejected() {
    let orch = Orchestrator { plan: bootstrap_plan(), stage: Stage::BootstrapInitializing };
    let mut init = one_key("a");
    init.keys.push("b".to_string());
    let (_, step) = orch.advance(Outcome::Initialized(init));
    assert!(matches!(
        step,
        Step::Abort(Error::ControlPlane { call: Call::Init, fault: Fault::KeyCount(2) })
    ));
}

#[test]
fn init_without_keys_is_a_control_plane_failure() {
    let orch = Orchestrator { plan: bootstrap_plan(), stage: Stage::BootstrapInitializing };
    let mut init = one_key("a");
    init.keys.clear();
    let (orch, step) = orch.advance(Outcome::Initialized(init));
    assert!(matches!(
        step,
        Step::Abort(Error::ControlPlane { call: Call::Init, fault: Fault::KeyCount(0) })
    ));
    assert!(matches!(orch.stage, Stage::Finished));
}

#[test]
fn probe_failure_beyond_connection_aborts() {
    let (orch, _) = Orchestrator::start(bootstrap_plan());
    let (_, step) = orch.advance(Outcome::Failed("builder error".to_string()));
    match step {
        Step::Abort(Error::ControlPlane { call: Call::Health, fault: Fault::Reported(d) }) => {
            assert_eq!(d, "builder error")
        }
        other => panic!("unexpected {other:?}"),
    }
}

#[test]
fn control_plane_failures_name_the_call() {
    let cases = [
        (Stage::BootstrapReading, Call::SealStatus),
        (Stage::BootstrapInitializing, Call::Init),
        (Stage::UnsealSubmitting { init: None }, Call::Unseal),
    ];
    for (stage, call) in cases {
        let orch = Orchestrator { plan: bootstrap_plan(), stage };
        let (orch, step) = orch.advance(Outcome::Failed("500 Internal Server Error".to_string()));
        match step {
            Step::Abort(Error::ControlPlane { call: c, fault: Fault::Reported(detail) }) => {
                assert_eq!(c, call);
                assert_eq!(detail, "500 Internal Server Error");
            }
            other => panic!("unexpected {other:?}"),
        }
        assert!(matches!(orch.stage, Stage::Finished));
    }
}

#[test]
fn snapshot_rejection_is_reported_verbatim() {
    let orch = Orchestrator { plan: restore_plan("k"), stage: Stage::RestoreSnapshotting };
    let (_, step) = orch.advance(Outcome::Failed("unsupported snapshot format".to_string()));
    match step {
        Step::Abort(Error::ControlPlane { call: Call::SnapshotForce, fault: Fault::Reported(detail) }) => {
            assert_eq!(detail, "unsupported snapshot format")
        }
        other => panic!("unexpected {other:?}"),
    }
}

#[test]
fn unreadable_snapshot_file() {
    let orch = Orchestrator { plan: restore_plan("k"), stage: Stage::RestoreSnapshotting };
    let (_, step) = orch.advance(Outcome::SourceUnreadable("No such file".to_string()));
    assert!(matches!(step, Step::Abort(Error::SourceResolution(SourceError::Unreadable(_)))));
}

#[test]
fn restore_tolerates_init_failure() {
    let orch = Orchestrator { plan: restore_plan("k"), stage: Stage::RestoreInitializing };
    let (orch, step) = orch.advance(Outcome::Failed("already initialized".to_string()));
    assert!(matches!(step, Step::Perform(Action::ReadSealStatus)));
    assert!(matches!(orch.stage, Stage::RestoreRereading));
}

#[test]
fn outcome_out_of_order_aborts() {
    let (orch, _) = Orchestrator::start(bootstrap_plan());
    let (orch, step) = orch.advance(Outcome::SnapshotRestored);
    assert!(matches!(step, Step::Abort(Error::OutOfOrder)));
    let (_, step) = orch.advance(Outcome::Reachable);
    assert!(matches!(step, Step::Abort(Error::OutOfOrder)));
}

#[test]
fn seal_status_consistency() {
    assert!(status(true, true).is_consistent());
    let mut s = status(true, true);
    s.progress = 2;
    assert!(!s.is_consistent());
    s.t = 3;
    assert!(!s.is_consistent());
    s.n = 5;
    assert!(s.is_consistent());
}

#[test]
fn request_builders() {
    let q = InitRequest::single_share();
    assert_eq!((q.secret_shares, q.secret_threshold), (1, 1));
    let u = UnsealRequest::with_key("abc".to_string());
    assert_eq!(u.key, "abc");
    assert!(u.reset.is_none() && u.migrate.is_none());
}

#[test]
fn endpoints_of_actions() {
    assert_eq!(Action::Probe.endpoint(), Some((Method::Head, "/sys/health")));
    assert_eq!(Action::ReadSealStatus.endpoint(), Some((Method::Get, "/sys/seal-status")));
    assert_eq!(
        Action::Initialize(InitRequest::single_share()).endpoint(),
        Some((Method::Post, "/sys/init"))
    );
    assert_eq!(
        Action::Unseal(UnsealRequest::with_key("k".to_string())).endpoint(),
        Some((Method::Post, "/sys/unseal"))
    );
    assert_eq!(
        Action::ForceSnapshot(SnapshotSource::LocalFile { path: "/a".to_string() }).endpoint(),
        Some((Method::Post, "/sys/storage/raft/snapshot-force"))
    );
    assert_eq!(Action::Pause { millis: POLL_INTERVAL_MS }.endpoint(), None);
}

#[test]
fn run_starts_with_a_probe() {
    let (orch, step) = Orchestrator::start(bootstrap_plan());
    assert!(matches!(step, Step::Perform(Action::Probe)));
    assert!(matches!(orch.stage, Stage::Probing { attempts: 1 }));
}
