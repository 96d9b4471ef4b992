//! Every run ends: a bound on the number of requests a run can still
//! issue, which each success lowers.

use vstd::prelude::*;
use crate::pipeline::{after_outcomes, answers, OutcomeView, PipelineView, Status};
use crate::plan::{follow_up, phase_ops, Operation, Phase};
use crate::wizard::StateView;

verus! {

/// The most requests an operation can stand for: itself, and what its
/// output may call for.
pub open spec fn weight(op: Operation) -> nat {
    match op {
        Operation::EnumerateHardware => 2,
        Operation::ReadMicroarch => 7,
        Operation::ReadKernelMarker => 9,
        _ => 1,
    }
}

/// The weights of `ops`, added up.
pub open spec fn total_weight(ops: Seq<Operation>) -> nat
    decreases ops.len(),
{
    if ops.len() == 0 {
        0
    } else {
        total_weight(ops.drop_last()) + weight(ops.last())
    }
}

/// The weight of the plans of the phases from place `i` on.
pub open spec fn later_weight(i: nat, s: StateView) -> nat
    decreases 11 - i,
{
    if i >= 11 {
        0
    } else {
        total_weight(phase_ops(Phase::at(i as int)->0, s)) + later_weight(i + 1, s)
    }
}

/// The most requests the run can still issue.
pub open spec fn work_left(p: PipelineView) -> nat {
    match p.status {
        Status::Running(ph) => total_weight(p.pending) + later_weight(ph.index() + 1, p.state),
        _ => 0,
    }
}

/// The weight of two lists in a row is the sum of their weights.
pub proof fn lemma_weight_adds(a: Seq<Operation>, b: Seq<Operation>)
    ensures
        total_weight(a + b) == total_weight(a) + total_weight(b),
    decreases b.len(),
{
    if b.len() == 0 {
        assert(a + b =~= a);
    } else {
        assert((a + b).drop_last() =~= a + b.drop_last());
        assert((a + b).last() == b.last());
        lemma_weight_adds(a, b.drop_last());
    }
}

/// A list weighs as much as its first operation and the rest together.
pub proof fn lemma_weight_of_first(ops: Seq<Operation>)
    requires
        ops.len() > 0,
    ensures
        total_weight(ops) == weight(ops[0]) + total_weight(ops.drop_first()),
{
    let head = seq![ops[0]];
    assert(ops =~= head + ops.drop_first());
    lemma_weight_adds(head, ops.drop_first());
    assert(head.drop_last() =~= Seq::<Operation>::empty());
    assert(total_weight(head) == weight(ops[0])) by {
        reveal_with_fuel(total_weight, 2);
    }
}

/// What an output calls for weighs less than the operation it came from.
pub proof fn lemma_follow_up_weighs_less(op: Operation, output: Seq<char>)
    ensures
        total_weight(follow_up(op, output)) + 1 <= weight(op),
{
    reveal_with_fuel(total_weight, 8);
    let f = follow_up(op, output);
    if f.len() == 2 {
        assert(f.drop_last() =~= seq![f[0]]);
    }
}

/// The plans depend on the answers alone.
pub proof fn lemma_later_weight_of_answers(i: nat, s: StateView, t: StateView)
    requires
        answers(s) == answers(t),
    ensures
        later_weight(i, s) == later_weight(i, t),
    decreases 11 - i,
{
    if i < 11 {
        lemma_later_weight_of_answers(i + 1, s, t);
    }
}

/// A request that succeeds leaves strictly less to do.
pub proof fn lemma_success_lowers_work(p: PipelineView, o: OutcomeView)
    requires
        p.wf(),
        p.status is Running,
        o.success,
    ensures
        work_left(p.recorded(o)) < work_left(p),
{
    let ph = p.status->Running_0;
    let op = p.pending[0];
    let rest = follow_up(op, o.output) + p.pending.drop_first();
    lemma_weight_of_first(p.pending);
    lemma_follow_up_weighs_less(op, o.output);
    lemma_weight_adds(follow_up(op, o.output), p.pending.drop_first());
    let r = p.recorded(o);
    if rest.len() == 0 {
        match ph.following() {
            Some(n) => {
                assert(Phase::at(ph.index() as int + 1) == Some(n));
                lemma_later_weight_of_answers(n.index() + 1, p.state, r.state);
                lemma_later_weight_of_answers(ph.index() + 1, p.state, r.state);
            },
            None => {},
        }
    }
}

/// While the run is under way, what is left to do shrinks by at least
/// one with every outcome handed in.
pub proof fn lemma_work_shrinks(p: PipelineView, outcomes: Seq<OutcomeView>)
    requires
        p.wf(),
    ensures
        after_outcomes(p, outcomes).wf(),
        after_outcomes(p, outcomes).status is Running ==> p.status is Running && work_left(
            after_outcomes(p, outcomes),
        ) + outcomes.len() <= work_left(p),
    decreases outcomes.len(),
{
    if outcomes.len() > 0 {
        let q = after_outcomes(p, outcomes.drop_last());
        lemma_work_shrinks(p, outcomes.drop_last());
        crate::pipeline::lemma_steps_keep_wf(q, outcomes.last());
        if q.status is Running && outcomes.last().success {
            lemma_success_lowers_work(q, outcomes.last());
        }
    }
}

/// Every run ends: once as many outcomes have been handed in as there
/// was work left, the run is no longer under way.
pub proof fn lemma_run_ends(p: PipelineView, outcomes: Seq<OutcomeView>)
    requires
        p.wf(),
        outcomes.len() >= work_left(p),
    ensures
        !(after_outcomes(p, outcomes).status is Running),
{
    lemma_work_shrinks(p, outcomes);
    let q = after_outcomes(p, outcomes);
    if q.status is Running {
        lemma_weight_of_first(q.pending);
    }
}

/// No run issues more than seventy requests: whatever the outcomes are,
/// a run that was started is over once seventy of them were handed in.
pub proof fn lemma_run_is_bounded(p: PipelineView, outcomes: Seq<OutcomeView>)
    requires
        p.wf(),
        p.status == Status::NotStarted,
        outcomes.len() >= 70,
    ensures
        work_left(p.begun()) <= 70,
        !(after_outcomes(p.begun(), outcomes).status is Running),
{
    reveal_with_fuel(later_weight, 12);
    lemma_phase_weights(p.state);
    crate::pipeline::lemma_steps_keep_wf(p, outcomes[0]);
    lemma_run_ends(p.begun(), outcomes);
}

/// The weight of each phase's plan.
pub proof fn lemma_phase_weights(s: StateView)
    ensures
        total_weight(phase_ops(Phase::Partition, s)) <= 4,
        total_weight(phase_ops(Phase::Format, s)) <= 2,
        total_weight(phase_ops(Phase::Mount, s)) <= 4,
        total_weight(phase_ops(Phase::Populate, s)) <= 1,
        total_weight(phase_ops(Phase::BindVirtual, s)) == 10,
        total_weight(phase_ops(Phase::Configure, s)) <= 11,
        total_weight(phase_ops(Phase::Desktop, s)) <= 18,
        total_weight(phase_ops(Phase::Gpu, s)) == 2,
        total_weight(phase_ops(Phase::Kernel, s)) == 9,
        total_weight(phase_ops(Phase::Bootloader, s)) == 2,
        total_weight(phase_ops(Phase::Cleanup, s)) <= 7,
{
    lemma_weight_is_length(phase_ops(Phase::Partition, s));
    lemma_weight_is_length(phase_ops(Phase::Format, s));
    lemma_weight_is_length(phase_ops(Phase::Mount, s));
    lemma_weight_is_length(phase_ops(Phase::Populate, s));
    lemma_weight_is_length(phase_ops(Phase::BindVirtual, s));
    lemma_weight_is_length(phase_ops(Phase::Configure, s));
    lemma_weight_is_length(phase_ops(Phase::Desktop, s));
    lemma_weight_is_length(phase_ops(Phase::Bootloader, s));
    lemma_weight_is_length(phase_ops(Phase::Cleanup, s));
    reveal_with_fuel(total_weight, 2);
    assert(phase_ops(Phase::Gpu, s).drop_last() =~= Seq::<Operation>::empty());
    assert(phase_ops(Phase::Kernel, s).drop_last() =~= Seq::<Operation>::empty());
}

/// A list without an operation that looks before it acts weighs as much
/// as it is long.
pub proof fn lemma_weight_is_length(ops: Seq<Operation>)
    requires
        forall|i: int| 0 <= i < ops.len() ==> weight(#[trigger] ops[i]) == 1,
    ensures
        total_weight(ops) == ops.len(),
    decreases ops.len(),
{
    if ops.len() > 0 {
        lemma_weight_is_length(ops.drop_last());
    }
}

} // verus!
