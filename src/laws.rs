use vstd::prelude::*;
use crate::error::Error;
use crate::model::{InitResult, SealStatus};
use crate::orchestrator::{
    after_reach, single_share_request, stage_wf, transition, unseal_request, Action, Outcome,
    POLL_INTERVAL_MS, Report, Stage, Step,
};
use crate::plan::{Mode, Plan};

verus! {

/// The stage reached and the steps handed out when the outcomes are fed, in
/// order, to an orchestrator at `stage`.
pub open spec fn run(plan: Plan, stage: Stage, outcomes: Seq<Outcome>) -> (Stage, Seq<Step>)
    decreases outcomes.len(),
{
    if outcomes.len() == 0 {
        (stage, Seq::empty())
    } else {
        let (next, step) = transition(plan, stage, outcomes[0]);
        let (last, rest) = run(plan, next, outcomes.drop_first());
        (last, seq![step] + rest)
    }
}

/// A server that leaves `k` probes unanswered and then answers: each miss is
/// followed by the end of a pause.
pub open spec fn late_answer(k: nat) -> Seq<Outcome>
    decreases k,
{
    if k == 0 {
        seq![Outcome::Reachable]
    } else {
        seq![Outcome::Unreachable, Outcome::Resumed] + late_answer((k - 1) as nat)
    }
}

/// While the server is down the steps alternate: a pause of one poll
/// interval, then a probe.
pub open spec fn waiting_step(j: int) -> Step {
    if j % 2 == 0 {
        Step::Perform(Action::Pause { millis: POLL_INTERVAL_MS })
    } else {
        Step::Perform(Action::Probe)
    }
}

proof fn lemma_run_cons(plan: Plan, stage: Stage, o: Outcome, rest: Seq<Outcome>)
    ensures
        run(plan, stage, seq![o] + rest) == ({
            let (next, step) = transition(plan, stage, o);
            let (last, steps) = run(plan, next, rest);
            (last, seq![step] + steps)
        }),
{
    assert((seq![o] + rest).drop_first() =~= rest);
    assert((seq![o] + rest)[0] == o);
}

/// Without a probe limit, a server that misses `k` probes gets exactly `k`
/// pauses of one poll interval, each followed by a fresh probe, and nothing
/// else (`waiting_step`); the first answered probe moves the run on at once to the flow's
/// first step. So the run waits at least as long as the server is down and
/// moves on within one poll interval of its coming up.
pub proof fn lemma_probe_waits_until_reachable(plan: Plan, attempts: u64, k: nat)
    requires
        plan.probe_limit is None,
    ensures
        ({
            let (last, steps) = run(plan, Stage::Probing { attempts }, late_answer(k));
            &&& steps.len() == 2 * k + 1
            &&& forall|j: int| 0 <= j < 2 * k ==> #[trigger] steps[j] == waiting_step(j)
            &&& steps[2 * k as int] == after_reach(plan).1
            &&& last == after_reach(plan).0
        }),
    decreases k,
{
    if k == 0 {
        lemma_run_cons(plan, Stage::Probing { attempts }, Outcome::Reachable, Seq::empty());
        assert(late_answer(0) =~= seq![Outcome::Reachable] + Seq::<Outcome>::empty());
    } else {
        let next: u64 = if attempts < u64::MAX { (attempts + 1) as u64 } else { attempts };
        let tail = late_answer((k - 1) as nat);
        lemma_probe_waits_until_reachable(plan, next, (k - 1) as nat);
        lemma_run_cons(plan, Stage::Pausing { attempts }, Outcome::Resumed, tail);
        assert(late_answer(k) =~= seq![Outcome::Unreachable] + (seq![Outcome::Resumed] + tail));
        lemma_run_cons(
            plan,
            Stage::Probing { attempts },
            Outcome::Unreachable,
            seq![Outcome::Resumed] + tail,
        );
        let steps = run(plan, Stage::Probing { attempts }, late_answer(k)).1;
        let inner = run(plan, Stage::Probing { attempts: next }, tail).1;
        assert(steps =~= seq![
            Step::Perform(Action::Pause { millis: POLL_INTERVAL_MS }),
            Step::Perform(Action::Probe),
        ] + inner);
        assert forall|j: int| 0 <= j < 2 * k implies #[trigger] steps[j] == waiting_step(j) by {
            if j >= 2 {
                assert(steps[j] == inner[j - 2]);
                assert(waiting_step(j) == waiting_step(j - 2));
            }
        }
    }
}

proof fn lemma_run_append(plan: Plan, stage: Stage, a: Seq<Outcome>, b: Seq<Outcome>)
    ensures
        run(plan, stage, a + b) == ({
            let (mid, first) = run(plan, stage, a);
            let (last, second) = run(plan, mid, b);
            (last, first + second)
        }),
    decreases a.len(),
{
    if a.len() == 0 {
        assert(a + b =~= b);
        assert(Seq::<Step>::empty() + run(plan, stage, b).1 =~= run(plan, stage, b).1);
    } else {
        let (next, step) = transition(plan, stage, a[0]);
        lemma_run_append(plan, next, a.drop_first(), b);
        assert((a + b).drop_first() =~= a.drop_first() + b);
        assert((a + b)[0] == a[0]);
        let (mid, first) = run(plan, next, a.drop_first());
        let (last, second) = run(plan, mid, b);
        assert(seq![step] + (first + second) =~= (seq![step] + first) + second);
    }
}

/// A bootstrap run against a fresh server that misses `k` probes and then
/// answers: after the pauses and probes it reads the seal status, asks for one
/// share with threshold one, submits that share as a plain unseal request,
/// reads the status again and, the cluster being unsealed, succeeds with the
/// key material and that last status.
pub proof fn lemma_bootstrap_from_fresh_server(
    plan: Plan,
    attempts: u64,
    k: nat,
    fresh: SealStatus,
    init: InitResult,
    unsealed: SealStatus,
    last: SealStatus,
)
    requires
        plan.wf(),
        plan.mode == Mode::Bootstrap,
        plan.probe_limit is None,
        !fresh.initialized,
        init.keys@.len() == 1,
        !last.sealed,
    ensures
        ({
            let answers = seq![
                Outcome::Status(fresh),
                Outcome::Initialized(init),
                Outcome::Unsealed(unsealed),
                Outcome::Status(last),
            ];
            let (end, steps) = run(plan, Stage::Probing { attempts }, late_answer(k) + answers);
            &&& end == Stage::Finished
            &&& steps.len() == 2 * k + 5
            &&& forall|j: int| 0 <= j < 2 * k ==> #[trigger] steps[j] == waiting_step(j)
            &&& steps[2 * k as int] == Step::Perform(Action::ReadSealStatus)
            &&& steps[(2 * k + 1) as int] == Step::Perform(Action::Initialize(single_share_request()))
            &&& steps[(2 * k + 2) as int] == Step::Perform(Action::Unseal(unseal_request(init.keys@[0])))
            &&& steps[(2 * k + 3) as int] == Step::Perform(Action::ReadSealStatus)
            &&& steps[(2 * k + 4) as int] == Step::Done(Report { init: Some(init), status: Some(last) })
        }),
{
    let key = init.keys@[0];
    let s4 = seq![Outcome::Status(last)];
    let s3 = seq![Outcome::Unsealed(unsealed)] + s4;
    let s2 = seq![Outcome::Initialized(init)] + s3;
    let answers = seq![Outcome::Status(fresh)] + s2;
    assert(s4 =~= seq![Outcome::Status(last)] + Seq::<Outcome>::empty());
    lemma_run_cons(plan, Stage::UnsealReading { key, init: Some(init) }, Outcome::Status(last), Seq::empty());
    lemma_run_cons(plan, Stage::BootstrapSelfUnsealing { init }, Outcome::Unsealed(unsealed), s4);
    lemma_run_cons(plan, Stage::BootstrapInitializing, Outcome::Initialized(init), s3);
    lemma_run_cons(plan, Stage::BootstrapReading, Outcome::Status(fresh), s2);
    let tail = run(plan, Stage::BootstrapReading, answers);
    assert(tail.1 =~= seq![
        Step::Perform(Action::Initialize(single_share_request())),
        Step::Perform(Action::Unseal(unseal_request(key))),
        Step::Perform(Action::ReadSealStatus),
        Step::Done(Report { init: Some(init), status: Some(last) }),
    ]);
    assert(answers =~= seq![
        Outcome::Status(fresh),
        Outcome::Initialized(init),
        Outcome::Unsealed(unsealed),
        Outcome::Status(last),
    ]);
    lemma_probe_waits_until_reachable(plan, attempts, k);
    lemma_run_append(plan, Stage::Probing { attempts }, late_answer(k), answers);
    let head = run(plan, Stage::Probing { attempts }, late_answer(k)).1;
    let steps = run(plan, Stage::Probing { attempts }, late_answer(k) + answers).1;
    assert(steps =~= head + tail.1);
    assert forall|j: int| 0 <= j < 2 * k implies #[trigger] steps[j] == waiting_step(j) by {
        assert(steps[j] == head[j]);
    }
}

/// A server that never answers: `k` misses, each followed by the end of a
/// pause, and one last miss.
pub open spec fn no_answer(k: nat) -> Seq<Outcome>
    decreases k,
{
    if k == 0 {
        seq![Outcome::Unreachable]
    } else {
        seq![Outcome::Unreachable, Outcome::Resumed] + no_answer((k - 1) as nat)
    }
}

/// With a limit of `l` probes, a server that never answers gets probes up to
/// the `l`-th, with one poll interval between two of them, and the run then
/// gives up with `Unreachable` naming `l` probes.
pub proof fn lemma_probe_limit_bounds_the_wait(plan: Plan, attempts: u64, l: u64)
    requires
        plan.probe_limit == Some(l),
        attempts <= l,
    ensures
        ({
            let k = (l - attempts) as nat;
            let (last, steps) = run(plan, Stage::Probing { attempts }, no_answer(k));
            &&& steps.len() == 2 * k + 1
            &&& forall|j: int| 0 <= j < 2 * k ==> #[trigger] steps[j] == waiting_step(j)
            &&& steps[2 * k as int] == Step::Abort(Error::Unreachable { probes: l })
            &&& last == Stage::Finished
        }),
    decreases l - attempts,
{
    let k = (l - attempts) as nat;
    if k == 0 {
        lemma_run_cons(plan, Stage::Probing { attempts }, Outcome::Unreachable, Seq::empty());
        assert(no_answer(0) =~= seq![Outcome::Unreachable] + Seq::<Outcome>::empty());
    } else {
        let next = (attempts + 1) as u64;
        let tail = no_answer((k - 1) as nat);
        lemma_probe_limit_bounds_the_wait(plan, next, l);
        lemma_run_cons(plan, Stage::Pausing { attempts }, Outcome::Resumed, tail);
        assert(no_answer(k) =~= seq![Outcome::Unreachable] + (seq![Outcome::Resumed] + tail));
        lemma_run_cons(
            plan,
            Stage::Probing { attempts },
            Outcome::Unreachable,
            seq![Outcome::Resumed] + tail,
        );
        let steps = run(plan, Stage::Probing { attempts }, no_answer(k)).1;
        let inner = run(plan, Stage::Probing { attempts: next }, tail).1;
        assert(steps =~= seq![
            Step::Perform(Action::Pause { millis: POLL_INTERVAL_MS }),
            Step::Perform(Action::Probe),
        ] + inner);
        assert forall|j: int| 0 <= j < 2 * k implies #[trigger] steps[j] == waiting_step(j) by {
            if j >= 2 {
                assert(steps[j] == inner[j - 2]);
                assert(waiting_step(j) == waiting_step(j - 2));
            }
        }
    }
}

/// In bootstrap mode the stages after initialization carry the one key share
/// that it returned, and the unsealer submits that share.
pub open spec fn carries_one_key(stage: Stage) -> bool {
    match stage {
        Stage::BootstrapSelfUnsealing { init } => init.keys@.len() == 1,
        Stage::UnsealReading { key, init } => init matches Some(r) && r.keys@.len() == 1
            && key == r.keys@[0],
        Stage::UnsealSubmitting { init } => init matches Some(r) && r.keys@.len() == 1,
        _ => true,
    }
}

/// What bootstrap promises of each step: a run that succeeds reports key
/// material of exactly one share, an initialization asks for one share with
/// threshold one, and an unseal submits a plain request.
pub open spec fn bootstrap_step_ok(step: Step) -> bool {
    &&& step matches Step::Done(rep) ==> (rep.init matches Some(r) && r.keys@.len() == 1)
    &&& step matches Step::Perform(Action::Initialize(q)) ==> q == single_share_request()
    &&& step matches Step::Perform(Action::Unseal(u)) ==> u.reset is None && u.migrate is None
}

proof fn lemma_bootstrap_invariant(plan: Plan, stage: Stage, outcomes: Seq<Outcome>)
    requires
        plan.wf(),
        plan.mode == Mode::Bootstrap,
        stage_wf(plan, stage),
        carries_one_key(stage),
    ensures
        forall|i: int|
            0 <= i < run(plan, stage, outcomes).1.len() ==> bootstrap_step_ok(
                #[trigger] run(plan, stage, outcomes).1[i],
            ),
    decreases outcomes.len(),
{
    if outcomes.len() > 0 {
        let (next, step) = transition(plan, stage, outcomes[0]);
        lemma_bootstrap_invariant(plan, next, outcomes.drop_first());
        let rest = run(plan, next, outcomes.drop_first()).1;
        let steps = run(plan, stage, outcomes).1;
        assert(steps =~= seq![step] + rest);
        assert forall|i: int| 0 <= i < steps.len() implies bootstrap_step_ok(#[trigger] steps[i]) by {
            if i > 0 {
                assert(steps[i] == rest[i - 1]);
            }
        }
    }
}

/// Whatever the server answers, a bootstrap run from its first probe asks
/// only for a single share with threshold one, submits plain unseal requests,
/// and, when it succeeds, reports exactly one key share.
pub proof fn lemma_bootstrap_yields_one_key(plan: Plan, attempts: u64, outcomes: Seq<Outcome>)
    requires
        plan.wf(),
        plan.mode == Mode::Bootstrap,
    ensures
        forall|i: int|
            0 <= i < run(plan, Stage::Probing { attempts }, outcomes).1.len() ==> bootstrap_step_ok(
                #[trigger] run(plan, Stage::Probing { attempts }, outcomes).1[i],
            ),
{
    lemma_bootstrap_invariant(plan, Stage::Probing { attempts }, outcomes);
}

/// A finished run hands out nothing but `OutOfOrder` aborts.
proof fn lemma_finished_stays_finished(plan: Plan, outcomes: Seq<Outcome>)
    ensures
        run(plan, Stage::Finished, outcomes).0 == Stage::Finished,
        forall|i: int|
            0 <= i < run(plan, Stage::Finished, outcomes).1.len() ==> #[trigger] run(
                plan,
                Stage::Finished,
                outcomes,
            ).1[i] == Step::Abort(Error::OutOfOrder),
    decreases outcomes.len(),
{
    if outcomes.len() > 0 {
        lemma_finished_stays_finished(plan, outcomes.drop_first());
        let rest = run(plan, Stage::Finished, outcomes.drop_first()).1;
        let steps = run(plan, Stage::Finished, outcomes).1;
        assert(steps =~= seq![Step::Abort(Error::OutOfOrder)] + rest);
        assert forall|i: int| 0 <= i < steps.len() implies steps[i] == Step::Abort(Error::OutOfOrder) by {
            if i > 0 {
                assert(steps[i] == rest[i - 1]);
            }
        }
    }
}

/// Bootstrapping a cluster that reports itself initialized fails with
/// `AlreadyInitialized`, and no initialization, nor any other request, is
/// issued afterwards, whatever else the driver reports.
pub proof fn lemma_initialized_cluster_is_refused(
    plan: Plan,
    s: SealStatus,
    later: Seq<Outcome>,
)
    requires
        plan.mode == Mode::Bootstrap,
        s.initialized,
    ensures
        ({
            let (last, steps) = run(plan, Stage::BootstrapReading, seq![Outcome::Status(s)] + later);
            &&& last == Stage::Finished
            &&& steps[0] == Step::Abort(Error::AlreadyInitialized)
            &&& forall|i: int| 0 <= i < steps.len() ==> !(#[trigger] steps[i] is Perform)
        }),
{
    lemma_run_cons(plan, Stage::BootstrapReading, Outcome::Status(s), later);
    lemma_finished_stays_finished(plan, later);
    let rest = run(plan, Stage::Finished, later).1;
    let steps = run(plan, Stage::BootstrapReading, seq![Outcome::Status(s)] + later).1;
    assert forall|i: int| 0 <= i < steps.len() implies !(#[trigger] steps[i] is Perform) by {
        if i > 0 {
            assert(steps[i] == rest[i - 1]);
        }
    }
}

/// After the snapshot has been forced in, the restore flow reads the seal
/// status and, finding the cluster sealed, submits the operator's key once,
/// with neither reset nor migrate; the run then reports the status that the
/// unseal call returned, sealed or not.
pub proof fn lemma_restore_unseals_with_operator_key(
    plan: Plan,
    before: SealStatus,
    after: SealStatus,
)
    requires
        plan.wf(),
        plan.mode == Mode::Restore,
        before.sealed,
    ensures
        run(
            plan,
            Stage::RestoreSnapshotting,
            seq![Outcome::SnapshotRestored, Outcome::Status(before), Outcome::Unsealed(after)],
        ) == (
            Stage::Finished,
            seq![
                Step::Perform(Action::ReadSealStatus),
                Step::Perform(Action::Unseal(unseal_request(plan.unseal_key->Some_0))),
                Step::Done(Report { init: None, status: Some(after) }),
            ],
        ),
{
    let key = plan.unseal_key->Some_0;
    let done = Step::Done(Report { init: None, status: Some(after) });
    let last = seq![Outcome::Unsealed(after)];
    let two = seq![Outcome::Status(before)] + last;
    let all = seq![Outcome::SnapshotRestored] + two;
    assert(last =~= seq![Outcome::Unsealed(after)] + Seq::<Outcome>::empty());
    lemma_run_cons(plan, Stage::UnsealSubmitting { init: None }, Outcome::Unsealed(after), Seq::empty());
    lemma_run_cons(plan, Stage::UnsealReading { key, init: None }, Outcome::Status(before), last);
    lemma_run_cons(plan, Stage::RestoreSnapshotting, Outcome::SnapshotRestored, two);
    assert(all =~= seq![Outcome::SnapshotRestored, Outcome::Status(before), Outcome::Unsealed(after)]);
    assert(run(plan, Stage::RestoreSnapshotting, all).1 =~= seq![
        Step::Perform(Action::ReadSealStatus),
        Step::Perform(Action::Unseal(unseal_request(key))),
        done,
    ]);
}

/// Unsealing a cluster that reports itself unsealed sends no unseal request:
/// the run ends at once with success and the status read.
pub proof fn lemma_unsealed_cluster_is_left_alone(
    plan: Plan,
    key: String,
    init: Option<InitResult>,
    s: SealStatus,
)
    requires
        !s.sealed,
    ensures
        transition(plan, Stage::UnsealReading { key, init }, Outcome::Status(s)) == (
            Stage::Finished,
            Step::Done(Report { init, status: Some(s) }),
        ),
{
}

} // verus!
