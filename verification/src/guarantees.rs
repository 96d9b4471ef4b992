//! What the pipeline guarantees, whatever the executor reports: how a
//! failure ends a run, that the answers stay untouched, in which order the
//! operations are asked for, what the firmware decides, and that the state
//! the wizard hands over is one the pipeline accepts.

use vstd::prelude::*;
use vstd::string::*;
use crate::model::{Firmware, PartitionMode, PopulatePolicy, Step};
use crate::pipeline::{
    after_outcomes, answers, lemma_marker_extends, lemma_steps_keep_wf, reached, refusal_of,
    OutcomeView, PipelineView, Status,
};
use crate::plan::{follow_up, markers_before, phase_ops, Operation, Phase, VirtualFs};
use crate::request::{args_of, efi_device, request_for, stdin_of};
use crate::wizard::{initial_view, run, Event, StateView};

verus! {

/// A request that fails while phase `ph` is under way ends the run: the
/// status is failed in `ph`, the log holds the lines of the phases before
/// `ph` and none for `ph`, the error is recorded and is not empty, no
/// further request is issued, and no later outcome changes anything.
pub proof fn lemma_failure_ends_run(p: PipelineView, o: OutcomeView, later: OutcomeView)
    requires
        p.wf(),
        p.status is Running,
        !o.success,
    ensures
        p.recorded(o).status == Status::Failed(Some(p.status->Running_0)),
        p.recorded(o).state.progress == p.state.progress,
        p.recorded(o).state.progress == markers_before(p.status->Running_0.index()),
        p.recorded(o).state.error is Some,
        p.recorded(o).state.error->0.len() > 0,
        p.recorded(o).request() is None,
        p.recorded(o).recorded(later) == p.recorded(o),
{
    reveal_strlit("Command failed: ");
}

/// A run that is done or has failed stays as it is, whatever is handed
/// in afterwards, and asks for nothing more.
pub proof fn lemma_terminal_is_final(p: PipelineView, outcomes: Seq<OutcomeView>)
    requires
        p.status is Done || p.status is Failed,
    ensures
        p.request() is None,
        after_outcomes(p, outcomes) == p,
    decreases outcomes.len(),
{
    if outcomes.len() > 0 {
        lemma_terminal_is_final(p, outcomes.drop_last());
    }
}

/// One outcome leaves every answer as it was, keeps what was logged and
/// adds at most one line to it, and takes the run no further than from
/// one phase to the next.
pub proof fn lemma_record_is_orderly(p: PipelineView, o: OutcomeView)
    requires
        p.wf(),
    ensures
        answers(p.recorded(o).state) == answers(p.state),
        p.recorded(o).state.progress == p.state.progress || p.recorded(o).state.progress
            == p.state.progress.push(p.status->Running_0.spec_marker()),
        reached(p) <= reached(p.recorded(o)) <= reached(p) + 1,
        answers(p.begun().state) == answers(p.state),
        p.begun().state.progress == p.state.progress,
{
    if p.current() is Some && o.success {
        lemma_marker_extends(p.status->Running_0);
    }
}

/// Over a whole series of outcomes the answers stay as they were, the log
/// only grows, and the phases are passed in their order.
pub proof fn lemma_run_is_orderly(p: PipelineView, outcomes: Seq<OutcomeView>)
    requires
        p.wf(),
    ensures
        after_outcomes(p, outcomes).wf(),
        answers(after_outcomes(p, outcomes).state) == answers(p.state),
        p.state.progress.is_prefix_of(after_outcomes(p, outcomes).state.progress),
        reached(p) <= reached(after_outcomes(p, outcomes)),
    decreases outcomes.len(),
{
    if outcomes.len() > 0 {
        let q = after_outcomes(p, outcomes.drop_last());
        lemma_run_is_orderly(p, outcomes.drop_last());
        lemma_steps_keep_wf(q, outcomes.last());
        lemma_record_is_orderly(q, outcomes.last());
    }
}

/// Within a phase the operations are asked for in the order in which
/// they are listed: as long as each succeeds and calls for nothing
/// further, the `i`-th outcome is followed by the request for the
/// operation at place `i` of the list.
pub proof fn lemma_phase_in_listed_order(p: PipelineView, outcomes: Seq<OutcomeView>)
    requires
        p.status is Running,
        outcomes.len() < p.pending.len(),
        forall|i: int|
            0 <= i < outcomes.len() ==> (#[trigger] outcomes[i]).success && follow_up(
                p.pending[i],
                outcomes[i].output,
            ).len() == 0,
    ensures
        after_outcomes(p, outcomes).status == p.status,
        after_outcomes(p, outcomes).pending == p.pending.skip(outcomes.len() as int),
        after_outcomes(p, outcomes).current() == Some(p.pending[outcomes.len() as int]),
        after_outcomes(p, outcomes).state == p.state,
    decreases outcomes.len(),
{
    if outcomes.len() > 0 {
        let init = outcomes.drop_last();
        assert forall|i: int| 0 <= i < init.len() implies (#[trigger] init[i]).success
            && follow_up(p.pending[i], init[i].output).len() == 0 by {
            assert(init[i] == outcomes[i]);
        }
        lemma_phase_in_listed_order(p, init);
        let q = after_outcomes(p, init);
        let o = outcomes.last();
        assert(o == outcomes[outcomes.len() - 1]);
        assert(q.pending[0] == p.pending[init.len() as int]);
        let rest = follow_up(q.pending[0], o.output) + q.pending.drop_first();
        assert(rest =~= p.pending.skip(outcomes.len() as int));
    } else {
        assert(p.pending.skip(0) =~= p.pending);
    }
}

/// When the last operation of a phase has succeeded, the phase's line is
/// logged and the next phase starts with the operations planned for it;
/// after the last phase the run is done.
pub proof fn lemma_phase_completes(p: PipelineView, o: OutcomeView)
    requires
        p.wf(),
        p.status is Running,
        o.success,
        p.pending.len() == 1,
        follow_up(p.pending[0], o.output).len() == 0,
    ensures
        p.recorded(o).state.progress == p.state.progress.push(
            p.status->Running_0.spec_marker(),
        ),
        p.status->Running_0.following() matches Some(n) ==> p.recorded(o).status
            == Status::Running(n) && p.recorded(o).pending == phase_ops(n, p.recorded(o).state),
        p.status->Running_0.following() is None ==> p.recorded(o).status == Status::Done,
{
}

/// On a UEFI machine with automatic partitioning the plan creates an EFI
/// partition, formats it as FAT32, and hands the bootloader the
/// arguments that are particular to UEFI. On a BIOS machine no phase and
/// no follow-up holds any of the three, the bootloader is given the disk
/// alone, and automatic partitioning sets the boot flag.
pub proof fn lemma_firmware_decides(s: StateView, ph: Phase, op: Operation, output: Seq<char>)
    ensures
        s.firmware == Firmware::Uefi && s.partition_mode == PartitionMode::Automatic
            ==> phase_ops(Phase::Partition, s).contains(Operation::CreateEfiPartition),
        s.firmware == Firmware::Uefi ==> phase_ops(Phase::Format, s).contains(
            Operation::FormatEfi,
        ),
        args_of(Operation::FormatEfi, s) == seq!["mkfs.fat"@, "-F32"@, efi_device(s)],
        phase_ops(Phase::Bootloader, s).contains(Operation::InstallBootloader),
        s.firmware == Firmware::Uefi ==> args_of(Operation::InstallBootloader, s) == seq![
            "grub-install"@,
            "--target=x86_64-efi"@,
            "--efi-directory=/boot/efi"@,
            "--bootloader-id=HackerOS"@,
            s.disk,
        ],
        s.firmware == Firmware::Bios ==> args_of(Operation::InstallBootloader, s) == seq![
            "grub-install"@,
            s.disk,
        ],
        s.firmware == Firmware::Bios ==> !phase_ops(ph, s).contains(
            Operation::CreateEfiPartition,
        ) && !phase_ops(ph, s).contains(Operation::FormatEfi) && !follow_up(op, output).contains(
            Operation::CreateEfiPartition,
        ) && !follow_up(op, output).contains(Operation::FormatEfi),
        s.firmware == Firmware::Bios && s.partition_mode == PartitionMode::Automatic
            ==> phase_ops(Phase::Partition, s).contains(Operation::SetBootFlag),
        s.firmware == Firmware::Uefi ==> !phase_ops(ph, s).contains(Operation::SetBootFlag)
            && !follow_up(op, output).contains(Operation::SetBootFlag),
{
    if s.firmware == Firmware::Uefi {
        if s.partition_mode == PartitionMode::Automatic {
            assert(phase_ops(Phase::Partition, s)[1] == Operation::CreateEfiPartition);
        }
        assert(phase_ops(Phase::Format, s)[0] == Operation::FormatEfi);
    } else if s.partition_mode == PartitionMode::Automatic {
        assert(phase_ops(Phase::Partition, s)[2] == Operation::SetBootFlag);
    }
    assert(phase_ops(Phase::Bootloader, s)[0] == Operation::InstallBootloader);
}

/// The targets of the bind operations of `ops`, in order.
pub open spec fn bound_in(ops: Seq<Operation>) -> Seq<VirtualFs>
    decreases ops.len(),
{
    if ops.len() == 0 {
        Seq::empty()
    } else {
        match ops.last() {
            Operation::Bind(v) => bound_in(ops.drop_last()).push(v),
            _ => bound_in(ops.drop_last()),
        }
    }
}

/// The targets of the unbind operations of `ops`, in order.
pub open spec fn unbound_in(ops: Seq<Operation>) -> Seq<VirtualFs>
    decreases ops.len(),
{
    if ops.len() == 0 {
        Seq::empty()
    } else {
        match ops.last() {
            Operation::Unbind(v) => unbound_in(ops.drop_last()).push(v),
            _ => unbound_in(ops.drop_last()),
        }
    }
}

/// No password ever stands among the arguments of a request: the
/// arguments, the kind of action and the confinement are the same
/// whatever the passwords are. Passwords reach the executor on the input
/// stream of the two operations that set them, and nowhere else.
pub proof fn lemma_passwords_travel_on_stdin(
    op: Operation,
    s: StateView,
    password: Seq<char>,
    root_password: Seq<char>,
)
    ensures
        args_of(op, (StateView { password, root_password, ..s })) == args_of(op, s),
        request_for(op, (StateView { password, root_password, ..s })).target_root == request_for(
            op,
            s,
        ).target_root,
        op != Operation::SetRootPassword && op != Operation::SetUserPassword ==> request_for(
            op,
            (StateView { password, root_password, ..s }),
        ) == request_for(op, s),
        stdin_of(Operation::SetRootPassword, s) == Some("root:"@ + s.root_password + "\n"@),
        stdin_of(Operation::SetUserPassword, s) == Some(s.username + ":"@ + s.password + "\n"@),
{
}

/// Cleanup releases the virtual filesystems in exactly the reverse of
/// the order in which they were bound, and unmounts the partitions only
/// after the last of them is released.
pub proof fn lemma_unbind_reverses_bind(s: StateView)
    ensures
        unbound_in(phase_ops(Phase::Cleanup, s)) == bound_in(
            phase_ops(Phase::BindVirtual, s),
        ).reverse(),
        bound_in(phase_ops(Phase::BindVirtual, s)) == seq![
            VirtualFs::Dev,
            VirtualFs::DevPts,
            VirtualFs::Proc,
            VirtualFs::Sys,
            VirtualFs::Run,
        ],
        phase_ops(Phase::Cleanup, s).last() == Operation::UnmountRoot,
{
    reveal_with_fuel(bound_in, 12);
    reveal_with_fuel(unbound_in, 9);
    let b = bound_in(phase_ops(Phase::BindVirtual, s));
    let u = unbound_in(phase_ops(Phase::Cleanup, s));
    assert(b =~= seq![
        VirtualFs::Dev,
        VirtualFs::DevPts,
        VirtualFs::Proc,
        VirtualFs::Sys,
        VirtualFs::Run,
    ]);
    assert(u =~= seq![
        VirtualFs::Run,
        VirtualFs::Sys,
        VirtualFs::Proc,
        VirtualFs::DevPts,
        VirtualFs::Dev,
    ]);
    assert(u =~= b.reverse());
}

/// A phase that starts with its planned operations runs through them one
/// by one: when each succeeds and calls for nothing further, the phase's
/// line is logged after the last, and the run is then at the start of the
/// next phase with that phase's plan, or done.
pub proof fn lemma_phase_runs_through(p: PipelineView, outcomes: Seq<OutcomeView>)
    requires
        p.wf(),
        p.status is Running,
        outcomes.len() == p.pending.len(),
        forall|i: int|
            0 <= i < outcomes.len() ==> (#[trigger] outcomes[i]).success && follow_up(
                p.pending[i],
                outcomes[i].output,
            ).len() == 0,
    ensures
        after_outcomes(p, outcomes).state.progress == p.state.progress.push(
            p.status->Running_0.spec_marker(),
        ),
        p.status->Running_0.following() matches Some(n) ==> after_outcomes(p, outcomes).status
            == Status::Running(n) && after_outcomes(p, outcomes).pending == phase_ops(
            n,
            p.state,
        ),
        p.status->Running_0.following() is None ==> after_outcomes(p, outcomes).status
            == Status::Done,
{
    let init = outcomes.drop_last();
    let o = outcomes.last();
    assert forall|i: int| 0 <= i < init.len() implies (#[trigger] init[i]).success && follow_up(
        p.pending[i],
        init[i].output,
    ).len() == 0 by {
        assert(init[i] == outcomes[i]);
    }
    lemma_phase_in_listed_order(p, init);
    let q = after_outcomes(p, init);
    assert(o == outcomes[outcomes.len() - 1]);
    assert(q.pending[0] == p.pending[init.len() as int]);
    lemma_phase_completes(q, o);
}

/// What the wizard has secured by the time it stands at a step: nothing is
/// logged, and every answer asked for at an earlier step has been given.
pub open spec fn on_track(s: StateView) -> bool {
    &&& s.progress.len() == 0
    &&& s.error is None
    &&& s.hostname.len() > 0
    &&& s.step.index() > Step::Username.index() ==> s.username.len() > 0
    &&& s.step.index() > Step::Password.index() ==> s.password.len() > 0
    &&& s.step.index() > Step::RootPassword.index() ==> s.root_password.len() > 0
    &&& s.step.index() > Step::Edition.index() ==> s.edition is Some && (s.edition->0.mandate()
        is Some ==> s.filesystem == s.edition->0.mandate())
    &&& s.step.index() > Step::Branch.index() ==> s.branch is Some
    &&& s.step.index() > Step::Filesystem.index() ==> s.filesystem is Some
    &&& s.step.index() > Step::Disk.index() ==> s.disk.len() > 0
}

/// No event takes the wizard off its track.
pub proof fn lemma_event_keeps_track(s: StateView, e: Event)
    requires
        on_track(s),
    ensures
        on_track(s.after(e)),
{
    reveal_strlit("hackeros");
}

/// A state that the wizard has brought from the start to the handoff is
/// fit to be installed from: the pipeline does not turn it down.
pub proof fn lemma_wizard_delivers_fit_state(
    firmware: Firmware,
    populate: PopulatePolicy,
    events: Seq<Event>,
)
    ensures
        on_track(run(initial_view(firmware, populate), events)),
        run(initial_view(firmware, populate), events).step == Step::Installing ==> refusal_of(
            run(initial_view(firmware, populate), events),
        ) is None,
    decreases events.len(),
{
    reveal_strlit("hackeros");
    if events.len() > 0 {
        lemma_wizard_delivers_fit_state(firmware, populate, events.drop_last());
        lemma_event_keeps_track(
            run(initial_view(firmware, populate), events.drop_last()),
            events.last(),
        );
    }
}

} // verus!
