//! The installation pipeline as a state machine: it names the request to
//! issue next, takes the outcome, and moves on or stops. Carrying the
//! requests out is the caller's part.

use vstd::prelude::*;
use vstd::string::*;
use crate::detect::{
    detect_gpu_vendor, gpu_vendor_in, kernel_family_in, microarch_in, read_kernel_marker,
    select_microarch,
};
use crate::model::{GpuVendor, KernelFamily, MicroarchLevel, Step};
use crate::plan::{
    extend, follow_up, follow_up_operations, markers_before, phase_operations, phase_ops,
    Operation, Phase,
};
use crate::request::{
    arguments, args_of, request, request_for, word, Outcome, Request, RequestView,
};
use crate::wizard::{InstallerState, StateView};

verus! {

/// Where a run stands.
#[derive(Clone, Copy, Debug, PartialEq, Eq)]
pub enum Status {
    NotStarted,
    /// The phase that is under way.
    Running(Phase),
    Done,
    /// The phase in which the run failed; `None` where it was turned down
    /// before its first phase.
    Failed(Option<Phase>),
}

/// Why a state is not fit to be installed from.
#[derive(Clone, Copy, Debug, PartialEq, Eq, Structural)]
pub enum Refusal {
    NotConfirmed,
    AlreadyRun,
    MissingUsername,
    MissingPassword,
    MissingRootPassword,
    MissingHostname,
    MissingDisk,
    MissingEdition,
    MissingBranch,
    MissingFilesystem,
    FilesystemMismatch,
}

impl Refusal {
    pub open spec fn spec_description(self) -> Seq<char> {
        match self {
            Refusal::NotConfirmed => "The summary has not been confirmed."@,
            Refusal::AlreadyRun => "This state carries the record of an earlier run."@,
            Refusal::MissingUsername => "No user name was given."@,
            Refusal::MissingPassword => "No user password was given."@,
            Refusal::MissingRootPassword => "No root password was given."@,
            Refusal::MissingHostname => "No host name was given."@,
            Refusal::MissingDisk => "No target disk was given."@,
            Refusal::MissingEdition => "No edition was chosen."@,
            Refusal::MissingBranch => "No branch was chosen."@,
            Refusal::MissingFilesystem => "No filesystem was chosen."@,
            Refusal::FilesystemMismatch => "The filesystem is not the one the edition requires."@,
        }
    }

    /// The reason in words.
    pub fn description(self) -> (s: &'static str)
        ensures
            s@ == self.spec_description(),
            s@.len() > 0,
    {
        proof {
            reveal_strlit("The summary has not been confirmed.");
            reveal_strlit("This state carries the record of an earlier run.");
            reveal_strlit("No user name was given.");
            reveal_strlit("No user password was given.");
            reveal_strlit("No root password was given.");
            reveal_strlit("No host name was given.");
            reveal_strlit("No target disk was given.");
            reveal_strlit("No edition was chosen.");
            reveal_strlit("No branch was chosen.");
            reveal_strlit("No filesystem was chosen.");
            reveal_strlit("The filesystem is not the one the edition requires.");
        }
        match self {
            Refusal::NotConfirmed => "The summary has not been confirmed.",
            Refusal::AlreadyRun => "This state carries the record of an earlier run.",
            Refusal::MissingUsername => "No user name was given.",
            Refusal::MissingPassword => "No user password was given.",
            Refusal::MissingRootPassword => "No root password was given.",
            Refusal::MissingHostname => "No host name was given.",
            Refusal::MissingDisk => "No target disk was given.",
            Refusal::MissingEdition => "No edition was chosen.",
            Refusal::MissingBranch => "No branch was chosen.",
            Refusal::MissingFilesystem => "No filesystem was chosen.",
            Refusal::FilesystemMismatch => "The filesystem is not the one the edition requires.",
        }
    }
}

/// Every answer the pipeline needs has been given, and the filesystem is
/// the one the edition requires where it requires one.
pub open spec fn complete(s: StateView) -> bool {
    &&& s.username.len() > 0
    &&& s.password.len() > 0
    &&& s.root_password.len() > 0
    &&& s.hostname.len() > 0
    &&& s.disk.len() > 0
    &&& s.edition is Some
    &&& s.branch is Some
    &&& s.filesystem is Some
    &&& (s.edition->0.mandate() is Some ==> s.filesystem == s.edition->0.mandate())
}

/// The first reason, in a fixed order, for which `s` is turned down;
/// `None` where it is fit to be installed from.
pub open spec fn refusal_of(s: StateView) -> Option<Refusal> {
    if s.step != Step::Installing {
        Some(Refusal::NotConfirmed)
    } else if s.progress.len() > 0 || s.error is Some {
        Some(Refusal::AlreadyRun)
    } else if s.username.len() == 0 {
        Some(Refusal::MissingUsername)
    } else if s.password.len() == 0 {
        Some(Refusal::MissingPassword)
    } else if s.root_password.len() == 0 {
        Some(Refusal::MissingRootPassword)
    } else if s.hostname.len() == 0 {
        Some(Refusal::MissingHostname)
    } else if s.disk.len() == 0 {
        Some(Refusal::MissingDisk)
    } else if s.edition is None {
        Some(Refusal::MissingEdition)
    } else if s.branch is None {
        Some(Refusal::MissingBranch)
    } else if s.filesystem is None {
        Some(Refusal::MissingFilesystem)
    } else if s.edition->0.mandate() is Some && s.filesystem != s.edition->0.mandate() {
        Some(Refusal::FilesystemMismatch)
    } else {
        None
    }
}

/// Checks a state before the run starts.
pub fn check(state: &InstallerState) -> (r: Option<Refusal>)
    ensures
        r == refusal_of(state@),
        r is None <==> state@.step == Step::Installing && state@.progress.len() == 0
            && state@.error is None && complete(state@),
{
    if state.step != Step::Installing {
        return Some(Refusal::NotConfirmed);
    }
    if state.progress.len() > 0 || state.error.is_some() {
        return Some(Refusal::AlreadyRun);
    }
    if state.username.as_str().is_empty() {
        return Some(Refusal::MissingUsername);
    }
    if state.password.as_str().is_empty() {
        return Some(Refusal::MissingPassword);
    }
    if state.root_password.as_str().is_empty() {
        return Some(Refusal::MissingRootPassword);
    }
    if state.hostname.as_str().is_empty() {
        return Some(Refusal::MissingHostname);
    }
    if state.disk.as_str().is_empty() {
        return Some(Refusal::MissingDisk);
    }
    match state.edition {
        None => Some(Refusal::MissingEdition),
        Some(e) => {
            if state.branch.is_none() {
                return Some(Refusal::MissingBranch);
            }
            match state.filesystem {
                None => Some(Refusal::MissingFilesystem),
                Some(f) => {
                    match e.mandated_filesystem() {
                        Some(m) => if m != f {
                            Some(Refusal::FilesystemMismatch)
                        } else {
                            None
                        },
                        None => None,
                    }
                },
            }
        },
    }
}

/// The words of `words` with a single blank between neighbours.
pub open spec fn joined(words: Seq<Seq<char>>) -> Seq<char>
    decreases words.len(),
{
    if words.len() == 0 {
        Seq::empty()
    } else if words.len() == 1 {
        words[0]
    } else {
        joined(words.drop_last()) + " "@ + words.last()
    }
}

/// What is recorded when a request fails: the request's arguments, and
/// what it printed where it printed anything.
pub open spec fn failure_text(args: Seq<Seq<char>>, output: Seq<char>) -> Seq<char> {
    let head = "Command failed: "@ + joined(args);
    if output.len() == 0 {
        head
    } else {
        head + ": "@ + output
    }
}

/// Joins `words` with single blanks.
pub fn join(words: &Vec<String>) -> (r: String)
    ensures
        r@ == joined(words.deep_view()),
{
    let mut r: String = String::new();
    let mut i: usize = 0;
    while i < words.len()
        invariant
            i <= words.len(),
            r@ == joined(words.deep_view().take(i as int)),
        decreases words.len() - i,
    {
        if i > 0 {
            r.append(" ");
        }
        r.append(words[i].as_str());
        proof {
            let now = words.deep_view().take(i + 1);
            assert(now.drop_last() =~= words.deep_view().take(i as int));
            assert(now.last() == words@[i as int]@);
            if i == 0 {
                assert(r@ =~= now[0]);
            }
        }
        i = i + 1;
    }
    assert(words.deep_view().take(words.len() as int) =~= words.deep_view());
    r
}

/// The text that is recorded for a request that failed.
pub fn describe_failure(args: &Vec<String>, output: &str) -> (r: String)
    ensures
        r@ == failure_text(args.deep_view(), output@),
        r@.len() > 0,
{
    proof {
        reveal_strlit("Command failed: ");
    }
    let line: String = join(args);
    let mut r: String = String::from_str("Command failed: ");
    r.append(line.as_str());
    if !output.is_empty() {
        r.append(": ");
        r.append(output);
    }
    r
}

/// Mathematical content of an [`Outcome`].
pub ghost struct OutcomeView {
    pub success: bool,
    pub output: Seq<char>,
}

impl View for Outcome {
    type V = OutcomeView;

    open spec fn view(&self) -> OutcomeView {
        OutcomeView { success: self.success, output: self.output@ }
    }
}

/// A run of the installation: the state it was started from, where it
/// stands, and what it has found out on its way.
pub struct Pipeline {
    state: InstallerState,
    status: Status,
    pending: Vec<Operation>,
    gpu: Option<GpuVendor>,
    kernel: Option<KernelFamily>,
    microarch: Option<MicroarchLevel>,
}

/// Mathematical content of a [`Pipeline`].
pub ghost struct PipelineView {
    /// The answers, which the run never changes, and the log and the
    /// error, which it writes.
    pub state: StateView,
    pub status: Status,
    /// Operations of the phase under way that are still to be done; the
    /// first is the one asked for now.
    pub pending: Seq<Operation>,
    /// Graphics vendor found in the hardware listing.
    pub gpu: Option<GpuVendor>,
    /// Kernel family read from the marker file, once it has been read.
    pub kernel: Option<KernelFamily>,
    /// Microarchitecture level selected, once the descriptor was read.
    pub microarch: Option<MicroarchLevel>,
}

impl PipelineView {
    /// What holds of every pipeline: while it runs, the answers are
    /// complete, something is left to do, nothing has gone wrong, and the
    /// log holds the lines of the phases before the current one and no
    /// other; when it is done, the log holds the line of every phase; when
    /// it has failed, the reason is recorded and the log holds the lines of
    /// the phases before the one that failed.
    pub open spec fn wf(self) -> bool {
        match self.status {
            Status::NotStarted => true,
            Status::Running(p) => {
                &&& complete(self.state)
                &&& self.pending.len() > 0
                &&& self.state.error is None
                &&& self.state.progress == markers_before(p.index())
            },
            Status::Done => {
                &&& self.state.error is None
                &&& self.state.progress == markers_before(11)
            },
            Status::Failed(at) => {
                &&& self.state.error is Some
                &&& self.state.error->0.len() > 0
                &&& (at matches Some(p) ==> self.state.progress == markers_before(p.index()))
            },
        }
    }

    /// The pipeline after the run was asked to start. A state that is not
    /// fit fails at once with the reason; a fit one enters the first
    /// phase. A pipeline that was started before stays as it is.
    pub open spec fn begun(self) -> PipelineView {
        if self.status != Status::NotStarted {
            self
        } else {
            match refusal_of(self.state) {
                Some(r) => PipelineView {
                    status: Status::Failed(None),
                    state: StateView { error: Some(r.spec_description()), ..self.state },
                    ..self
                },
                None => PipelineView {
                    status: Status::Running(Phase::Partition),
                    pending: phase_ops(Phase::Partition, self.state),
                    ..self
                },
            }
        }
    }

    /// The operation that is asked for now, if the run is under way.
    pub open spec fn current(self) -> Option<Operation> {
        if self.status is Running && self.pending.len() > 0 {
            Some(self.pending[0])
        } else {
            None
        }
    }

    /// The request that is to be issued now, if any.
    pub open spec fn request(self) -> Option<RequestView> {
        match self.current() {
            Some(op) => Some(request_for(op, self.state)),
            None => None,
        }
    }

    /// The pipeline with what `output`, captured from `op`, tells.
    pub open spec fn informed(self, op: Operation, output: Seq<char>) -> PipelineView {
        match op {
            Operation::EnumerateHardware => PipelineView { gpu: gpu_vendor_in(output), ..self },
            Operation::ReadKernelMarker => PipelineView {
                kernel: Some(kernel_family_in(output)),
                ..self
            },
            Operation::ReadMicroarch => PipelineView {
                microarch: Some(microarch_in(output)),
                ..self
            },
            _ => self,
        }
    }

    /// The running pipeline after its current operation succeeded with
    /// `output`: what the output calls for is done next, then the rest of
    /// the phase; when nothing is left, the phase's line is logged and
    /// the next phase entered, or the run is done.
    pub open spec fn advanced(self, output: Seq<char>) -> PipelineView {
        let op = self.pending[0];
        let phase = self.status->Running_0;
        let rest = follow_up(op, output) + self.pending.drop_first();
        let known = self.informed(op, output);
        if rest.len() > 0 {
            PipelineView { pending: rest, ..known }
        } else {
            let logged = StateView {
                progress: self.state.progress.push(phase.spec_marker()),
                ..self.state
            };
            match phase.following() {
                Some(n) => PipelineView {
                    status: Status::Running(n),
                    pending: phase_ops(n, self.state),
                    state: logged,
                    ..known
                },
                None => PipelineView {
                    status: Status::Done,
                    pending: Seq::empty(),
                    state: logged,
                    ..known
                },
            }
        }
    }

    /// The running pipeline after its current operation failed with
    /// `output`: the failure is recorded and the run is over.
    pub open spec fn stopped(self, output: Seq<char>) -> PipelineView {
        PipelineView {
            status: Status::Failed(Some(self.status->Running_0)),
            state: StateView {
                error: Some(failure_text(args_of(self.pending[0], self.state), output)),
                ..self.state
            },
            ..self
        }
    }

    /// The pipeline after the outcome of the current request was handed
    /// in. Where no request is out, nothing changes.
    pub open spec fn recorded(self, o: OutcomeView) -> PipelineView {
        if self.current() is None {
            self
        } else if o.success {
            self.advanced(o.output)
        } else {
            self.stopped(o.output)
        }
    }
}

/// With complete answers no phase is empty.
pub proof fn lemma_phase_never_empty(p: Phase, s: StateView)
    requires
        complete(s),
    ensures
        phase_ops(p, s).len() > 0,
{
}

/// The line of a phase extends the lines of the phases before it to the
/// lines of the phases up to it.
pub proof fn lemma_marker_extends(p: Phase)
    ensures
        markers_before(p.index()).push(p.spec_marker()) == markers_before(p.index() + 1),
        p.following() is None ==> p.index() + 1 == 11,
        p.following() matches Some(n) ==> n.index() == p.index() + 1,
{
}

/// Appends `line` to a log.
fn log_line(log: &mut Vec<String>, line: &str)
    ensures
        final(log).deep_view() == old(log).deep_view().push(line@),
{
    log.push(String::from_str(line));
    assert(log.deep_view() =~= old(log).deep_view().push(line@));
}

impl View for Pipeline {
    type V = PipelineView;

    closed spec fn view(&self) -> PipelineView {
        PipelineView {
            state: self.state@,
            status: self.status,
            pending: self.pending@,
            gpu: self.gpu,
            kernel: self.kernel,
            microarch: self.microarch,
        }
    }
}

impl Pipeline {
    #[verifier::type_invariant]
    spec fn inv(self) -> bool {
        self@.wf()
    }

    /// A pipeline that has not started, holding the state it will install
    /// from.
    pub fn new(state: InstallerState) -> (p: Pipeline)
        ensures
            p@ == (PipelineView {
                state: state@,
                status: Status::NotStarted,
                pending: Seq::empty(),
                gpu: None,
                kernel: None,
                microarch: None,
            }),
            p@.wf(),
    {
        Pipeline {
            state,
            status: Status::NotStarted,
            pending: Vec::new(),
            gpu: None,
            kernel: None,
            microarch: None,
        }
    }

    /// Starts the run: checks the state and enters the first phase, or
    /// fails with the reason for which the state was turned down.
    pub fn begin(self) -> (p: Pipeline)
        ensures
            p@ == self@.begun(),
            p@.wf(),
    {
        proof {
            use_type_invariant(&self);
        }
        let Pipeline { state, status, pending, gpu, kernel, microarch } = self;
        match status {
            Status::NotStarted => {
                match check(&state) {
                    Some(r) => {
                        let mut state = state;
                        state.error = Some(word(r.description()));
                        Pipeline { state, status: Status::Failed(None), pending, gpu, kernel, microarch }
                    },
                    None => {
                        let ops: Vec<Operation> = phase_operations(Phase::Partition, &state);
                        proof {
                            lemma_phase_never_empty(Phase::Partition, state@);
                            assert(state@.progress =~= markers_before(0));
                        }
                        Pipeline {
                            state,
                            status: Status::Running(Phase::Partition),
                            pending: ops,
                            gpu,
                            kernel,
                            microarch,
                        }
                    },
                }
            },
            _ => Pipeline { state, status, pending, gpu, kernel, microarch },
        }
    }

    /// The request to issue now: `Some` exactly while the run is under
    /// way.
    pub fn next_request(&self) -> (r: Option<Request>)
        ensures
            match r {
                Some(q) => self@.request() == Some(q@),
                None => self@.request() is None,
            },
            r is Some <==> self@.status is Running,
    {
        proof {
            use_type_invariant(self);
        }
        match self.status {
            Status::Running(_) => Some(request(self.pending[0], &self.state)),
            _ => None,
        }
    }

    /// Takes the outcome of the request that is out and moves the run on:
    /// to the next operation, to the next phase, to its end, or, where the
    /// request failed, to failure. The answers are left as they were.
    pub fn record(self, outcome: Outcome) -> (p: Pipeline)
        ensures
            p@ == self@.recorded(outcome@),
            p@.wf(),
    {
        proof {
            use_type_invariant(&self);
        }
        let Pipeline { state, status, pending, gpu, kernel, microarch } = self;
        match status {
            Status::Running(phase) => {
                let op: Operation = pending[0];
                if !outcome.success {
                    let args: Vec<String> = arguments(op, &state);
                    let text: String = describe_failure(&args, outcome.output.as_str());
                    let mut state = state;
                    state.error = Some(text);
                    Pipeline {
                        state,
                        status: Status::Failed(Some(phase)),
                        pending,
                        gpu,
                        kernel,
                        microarch,
                    }
                } else {
                    let output: &str = outcome.output.as_str();
                    let follow: Vec<Operation> = follow_up_operations(op, output);
                    let mut rest: Vec<Operation> = pending;
                    rest.remove(0);
                    let queue: Vec<Operation> = extend(follow, &rest);
                    let gpu: Option<GpuVendor> = match op {
                        Operation::EnumerateHardware => detect_gpu_vendor(output),
                        _ => gpu,
                    };
                    let kernel: Option<KernelFamily> = match op {
                        Operation::ReadKernelMarker => Some(read_kernel_marker(output)),
                        _ => kernel,
                    };
                    let microarch: Option<MicroarchLevel> = match op {
                        Operation::ReadMicroarch => Some(select_microarch(output)),
                        _ => microarch,
                    };
                    if queue.len() > 0 {
                        Pipeline { state, status, pending: queue, gpu, kernel, microarch }
                    } else {
                        proof {
                            lemma_marker_extends(phase);
                        }
                        match phase.next() {
                            Some(n) => {
                                let ops: Vec<Operation> = phase_operations(n, &state);
                                proof {
                                    lemma_phase_never_empty(n, state@);
                                }
                                let mut state = state;
                                log_line(&mut state.progress, phase.marker());
                                Pipeline {
                                    state,
                                    status: Status::Running(n),
                                    pending: ops,
                                    gpu,
                                    kernel,
                                    microarch,
                                }
                            },
                            None => {
                                let mut state = state;
                                log_line(&mut state.progress, phase.marker());
                                Pipeline {
                                    state,
                                    status: Status::Done,
                                    pending: Vec::new(),
                                    gpu,
                                    kernel,
                                    microarch,
                                }
                            },
                        }
                    }
                }
            },
            _ => Pipeline { state, status, pending, gpu, kernel, microarch },
        }
    }

    /// Where the run stands.
    pub fn status(&self) -> (s: Status)
        ensures
            s == self@.status,
    {
        self.status
    }

    /// The state the run works from, with the log and the error as they
    /// stand.
    pub fn state(&self) -> (s: &InstallerState)
        ensures
            s@ == self@.state,
    {
        &self.state
    }

    /// The graphics vendor found, if the hardware listing named one.
    pub fn gpu(&self) -> (v: Option<GpuVendor>)
        ensures
            v == self@.gpu,
    {
        self.gpu
    }

    /// The kernel family the marker file asked for, once it was read.
    pub fn kernel(&self) -> (k: Option<KernelFamily>)
        ensures
            k == self@.kernel,
    {
        self.kernel
    }

    /// The microarchitecture level selected, once the descriptor was read.
    pub fn microarch(&self) -> (l: Option<MicroarchLevel>)
        ensures
            l == self@.microarch,
    {
        self.microarch
    }

    /// Gives the state back, for the time after the run.
    pub fn into_state(self) -> (s: InstallerState)
        ensures
            s@ == self@.state,
    {
        let Pipeline { state, status, pending, gpu, kernel, microarch } = self;
        state
    }
}

/// The answers of a state: everything but the log and the error.
pub open spec fn answers(s: StateView) -> StateView {
    StateView { progress: Seq::empty(), error: None, ..s }
}

/// The pipeline reached from `p` by handing in `outcomes`, first to last.
pub open spec fn after_outcomes(p: PipelineView, outcomes: Seq<OutcomeView>) -> PipelineView
    decreases outcomes.len(),
{
    if outcomes.len() == 0 {
        p
    } else {
        after_outcomes(p, outcomes.drop_last()).recorded(outcomes.last())
    }
}

/// How far a run has come: the place of the phase under way, of the
/// phase that failed, or the number of phases when all are done.
pub open spec fn reached(p: PipelineView) -> nat {
    match p.status {
        Status::NotStarted => 0,
        Status::Running(ph) => ph.index(),
        Status::Done => 11,
        Status::Failed(Some(ph)) => ph.index(),
        Status::Failed(None) => 0,
    }
}

/// Starting and recording keep what holds of every pipeline.
pub proof fn lemma_steps_keep_wf(p: PipelineView, o: OutcomeView)
    requires
        p.wf(),
    ensures
        p.begun().wf(),
        p.recorded(o).wf(),
{
    reveal_strlit("Command failed: ");
    if p.status == Status::NotStarted {
        match refusal_of(p.state) {
            Some(r) => {
                lemma_refusal_has_text(r);
            },
            None => {
                assert(p.state.progress =~= markers_before(0));
                lemma_phase_never_empty(Phase::Partition, p.state);
            },
        }
    }
    if p.current() is Some && o.success {
        let ph = p.status->Running_0;
        lemma_marker_extends(ph);
        if ph.following() is Some {
            lemma_phase_never_empty(ph.following()->0, p.state);
        }
    }
}

/// Every reason for a refusal is given in words.
pub proof fn lemma_refusal_has_text(r: Refusal)
    ensures
        r.spec_description().len() > 0,
{
    reveal_strlit("The summary has not been confirmed.");
    reveal_strlit("This state carries the record of an earlier run.");
    reveal_strlit("No user name was given.");
    reveal_strlit("No user password was given.");
    reveal_strlit("No root password was given.");
    reveal_strlit("No host name was given.");
    reveal_strlit("No target disk was given.");
    reveal_strlit("No edition was chosen.");
    reveal_strlit("No branch was chosen.");
    reveal_strlit("No filesystem was chosen.");
    reveal_strlit("The filesystem is not the one the edition requires.");
}

} // verus!
