//! A generation run: the steps of a plan, taken one at a time. The
//! caller does what the pending step asks and reports how it went; the
//! run decides what that means and what comes next.

use crate::generators::plan::{
    lines_on, staged, Invocation, InvocationView, Line, LineView, Operation, Step, StepView,
    Stream,
};
use crate::utils::dependency_checker::{Dependency, DependencyView};
use crate::views;
use vstd::prelude::*;

verus! {

/// How the pending step went.
#[derive(Debug)]
pub enum Outcome {
    Done,
    /// The step failed, for the given cause.
    Failed(String),
}

/// The mathematical value of an [`Outcome`].
pub enum OutcomeView {
    Done,
    Failed(Seq<char>),
}

impl View for Outcome {
    type V = OutcomeView;

    open spec fn view(&self) -> OutcomeView {
        match self {
            Outcome::Done => OutcomeView::Done,
            Outcome::Failed(cause) => OutcomeView::Failed(cause@),
        }
    }
}

impl OutcomeView {
    /// How a program went that was launched and has exited: well if
    /// it exited with success; else it failed, and what it wrote to
    /// standard error is the cause.
    pub open spec fn exited(success: bool, errors: Seq<char>) -> OutcomeView {
        if success {
            OutcomeView::Done
        } else {
            OutcomeView::Failed(errors)
        }
    }
}

impl Outcome {
    /// How a program went that was launched and has exited. A program
    /// that exits without success has failed, like one that could not
    /// be launched.
    pub fn exited(success: bool, errors: String) -> (outcome: Outcome)
        ensures
            outcome@ == OutcomeView::exited(success, errors@),
    {
        if success {
            Outcome::Done
        } else {
            Outcome::Failed(errors)
        }
    }
}

/// Why a run ended without a project.
#[derive(Debug)]
pub enum Failure {
    /// Executables that the project needs are missing from the host.
    MissingDependencies(Vec<Dependency>),
    /// The project directory exists already.
    TargetExists,
    /// A step on the file system failed that the project cannot stand
    /// without.
    Step { context: String, cause: String },
}

/// The mathematical value of a [`Failure`].
pub enum FailureView {
    MissingDependencies(Seq<DependencyView>),
    TargetExists,
    Step { context: Seq<char>, cause: Seq<char> },
}

impl View for Failure {
    type V = FailureView;

    open spec fn view(&self) -> FailureView {
        match self {
            Failure::MissingDependencies(list) => FailureView::MissingDependencies(views(list@)),
            Failure::TargetExists => FailureView::TargetExists,
            Failure::Step { context, cause } => FailureView::Step {
                context: context@,
                cause: cause@,
            },
        }
    }
}

/// The view of a failure, if there is one.
pub open spec fn failure_view(failure: Option<Failure>) -> Option<FailureView> {
    match failure {
        Some(f) => Some(f@),
        None => None,
    }
}

/// How far a run has come.
#[derive(Debug, Clone, Copy, PartialEq, Eq, Structural)]
pub enum Progress {
    /// Nothing has been done yet.
    Start,
    DirectoriesCreated,
    FilesWritten,
    PackageManagerAttempted,
    /// Version control was attempted, and nothing is left to do.
    Done,
    /// The run was refused, or a step on the file system failed that
    /// the project cannot stand without.
    Failed,
}

/// The mathematical value of a [`Run`].
pub struct RunView {
    pub plan: Seq<StepView>,
    /// The number of steps taken.
    pub cursor: nat,
    /// Whether a program has failed so far.
    pub warned: bool,
    pub failure: Option<FailureView>,
}

/// What is printed after a program was run: its success lines, or a
/// warning with the cause and the remedy; then its closing lines,
/// which depend on whether any program has failed by now.
pub open spec fn report(call: InvocationView, outcome: OutcomeView, warned: bool) -> Seq<
    LineView,
> {
    match outcome {
        OutcomeView::Done => lines_on(Stream::Stdout, call.success) + if warned {
            call.closing_warned
        } else {
            call.closing_clean
        },
        OutcomeView::Failed(cause) => seq![
            LineView { stream: Stream::Stderr, text: call.complaint + ": "@ + cause },
            LineView { stream: Stream::Stderr, text: call.remedy },
        ] + call.closing_warned,
    }
}

/// The warning of a best-effort step that failed: what was attempted
/// and the cause, on standard error.
pub open spec fn warning(context: Seq<char>, cause: Seq<char>) -> LineView {
    LineView { stream: Stream::Stderr, text: "⚠️ Warning: "@ + context + ": "@ + cause }
}

impl RunView {
    /// A run before its first step. A run that is refused starts as
    /// failed and has no step to take.
    pub open spec fn start(plan: Seq<StepView>, refusal: Option<FailureView>) -> RunView {
        RunView { plan, cursor: 0, warned: false, failure: refusal }
    }

    /// The step that the caller is to take now, if any.
    pub open spec fn pending(self) -> Option<StepView> {
        if self.failure is None && self.cursor < self.plan.len() {
            Some(self.plan[self.cursor as int])
        } else {
            None
        }
    }

    /// Whether every step was taken and none of them ended the run.
    pub open spec fn succeeded(self) -> bool {
        self.failure is None && self.cursor >= self.plan.len()
    }

    /// The exit code of the process: 0 once the project stands,
    /// whatever was warned of; 1 if the run failed.
    pub open spec fn exit_code(self) -> i32 {
        if self.failure is Some {
            1
        } else {
            0
        }
    }

    /// How far the run has come: every stage before that of the
    /// pending step is behind it.
    pub open spec fn progress(self) -> Progress {
        match self.pending() {
            Some(StepView::Directory(_)) => Progress::Start,
            Some(StepView::File(_)) => Progress::DirectoriesCreated,
            Some(StepView::PackageManager(_)) => Progress::FilesWritten,
            Some(StepView::Git(_)) => Progress::PackageManagerAttempted,
            None => if self.failure is Some {
                Progress::Failed
            } else {
                Progress::Done
            },
        }
    }

    /// The run after the pending step went as `outcome` says. A step
    /// on the file system that fails ends the run, unless it is best
    /// effort: then the run goes on as if it had gone well. A program
    /// that fails is noted and the run goes on. A run with no pending
    /// step stays as it is.
    pub open spec fn record(self, outcome: OutcomeView) -> RunView {
        match self.pending() {
            None => self,
            Some(StepView::Directory(step)) | Some(StepView::File(step)) => match outcome {
                OutcomeView::Failed(cause) if !step.operation.is_best_effort() => RunView {
                    failure: Some(FailureView::Step { context: step.context, cause }),
                    ..self
                },
                _ => RunView { cursor: self.cursor + 1, ..self },
            },
            Some(StepView::PackageManager(_)) | Some(StepView::Git(_)) => RunView {
                cursor: self.cursor + 1,
                warned: self.warned || outcome is Failed,
                ..self
            },
        }
    }

    /// The run after its steps went, one after the other, as
    /// `outcomes` says.
    pub open spec fn replay(self, outcomes: Seq<OutcomeView>) -> RunView
        decreases outcomes.len(),
    {
        if outcomes.len() == 0 {
            self
        } else {
            self.replay(outcomes.drop_last()).record(outcomes.last())
        }
    }

    /// What is printed when the pending step went as `outcome` says:
    /// the report of a program, a warning of a best-effort step that
    /// failed, and nothing else.
    pub open spec fn output(self, outcome: OutcomeView) -> Seq<LineView> {
        match self.pending() {
            Some(StepView::PackageManager(call)) | Some(StepView::Git(call)) => report(
                call,
                outcome,
                self.warned || outcome is Failed,
            ),
            Some(StepView::Directory(step)) | Some(StepView::File(step)) => match outcome {
                OutcomeView::Failed(cause) if step.operation.is_best_effort() => seq![
                    warning(step.context, cause),
                ],
                _ => Seq::empty(),
            },
            None => Seq::empty(),
        }
    }
}

/// Appends the lines that print `texts` to `stream`.
fn print_on(lines: &mut Vec<Line>, stream: Stream, texts: &Vec<String>)
    ensures
        views(final(lines)@) == views(old(lines)@) + lines_on(stream, views(texts@)),
{
    let mut i: usize = 0;
    while i < texts.len()
        invariant
            i <= texts.len(),
            views(lines@) == views(old(lines)@) + lines_on(stream, views(texts@.take(i as int))),
        decreases texts.len() - i,
    {
        let ghost before = lines@;
        lines.push(Line { stream, text: texts[i].clone() });
        assert(views(lines@) =~= views(before).push(
            LineView { stream, text: texts@[i as int]@ },
        ));
        i += 1;
    }
}

/// Appends copies of `more`.
fn print_all(lines: &mut Vec<Line>, more: &Vec<Line>)
    ensures
        views(final(lines)@) == views(old(lines)@) + views(more@),
{
    let mut i: usize = 0;
    while i < more.len()
        invariant
            i <= more.len(),
            views(lines@) == views(old(lines)@) + views(more@.take(i as int)),
        decreases more.len() - i,
    {
        let ghost before = lines@;
        lines.push(Line { stream: more[i].stream, text: more[i].text.clone() });
        assert(views(lines@) =~= views(before).push(more@[i as int]@));
        i += 1;
    }
}

/// What is printed after a program was run.
fn report_of(call: &Invocation, outcome: &Outcome, warned: bool) -> (lines: Vec<Line>)
    ensures
        views(lines@) == report(call@, outcome@, warned),
{
    let mut lines: Vec<Line> = Vec::new();
    match outcome {
        Outcome::Done => {
            print_on(&mut lines, Stream::Stdout, &call.success);
            if warned {
                print_all(&mut lines, &call.closing_warned);
            } else {
                print_all(&mut lines, &call.closing_clean);
            }
        },
        Outcome::Failed(cause) => {
            let mut text = call.complaint.clone();
            text.append(": ");
            text.append(cause.as_str());
            lines.push(Line { stream: Stream::Stderr, text });
            lines.push(Line { stream: Stream::Stderr, text: call.remedy.clone() });
            print_all(&mut lines, &call.closing_warned);
        },
    }
    lines
}

/// A generation run.
#[derive(Debug)]
pub struct Run {
    plan: Vec<Step>,
    cursor: usize,
    warned: bool,
    failure: Option<Failure>,
}

impl View for Run {
    type V = RunView;

    closed spec fn view(&self) -> RunView {
        RunView {
            plan: views(self.plan@),
            cursor: self.cursor as nat,
            warned: self.warned,
            failure: failure_view(self.failure),
        }
    }
}

impl Run {
    /// Starts a run of `plan`. With a `refusal` the run starts as
    /// failed: none of its steps is ever handed out.
    pub fn new(plan: Vec<Step>, refusal: Option<Failure>) -> (run: Run)
        ensures
            run@ == RunView::start(views(plan@), failure_view(refusal)),
    {
        Run { plan, cursor: 0, warned: false, failure: refusal }
    }

    /// The step that the caller is to take now, if any.
    pub fn pending(&self) -> (step: Option<&Step>)
        ensures
            match step {
                Some(s) => self@.pending() == Some(s@),
                None => self@.pending() is None,
            },
    {
        if self.failure.is_none() && self.cursor < self.plan.len() {
            Some(&self.plan[self.cursor])
        } else {
            None
        }
    }

    /// Records how the pending step went, and returns what is to be
    /// printed. A step on the file system that fails ends the run,
    /// unless it is best effort; a best-effort step or a program that
    /// fails is warned of and the run goes on.
    pub fn record(&mut self, outcome: Outcome) -> (lines: Vec<Line>)
        ensures
            final(self)@ == old(self)@.record(outcome@),
            views(lines@) == old(self)@.output(outcome@),
    {
        if self.failure.is_some() || self.cursor >= self.plan.len() {
            return Vec::new();
        }
        let failed = match &outcome {
            Outcome::Done => false,
            Outcome::Failed(_) => true,
        };
        match &self.plan[self.cursor] {
            Step::Directory(step) | Step::File(step) => {
                let mut lines: Vec<Line> = Vec::new();
                match outcome {
                    Outcome::Done => {
                        self.cursor = self.cursor + 1;
                    },
                    Outcome::Failed(cause) => match step.operation {
                        Operation::MakeExecutable => {
                            let mut text = String::from_str("⚠️ Warning: ");
                            text.append(step.context.as_str());
                            text.append(": ");
                            text.append(cause.as_str());
                            lines.push(Line { stream: Stream::Stderr, text });
                            self.cursor = self.cursor + 1;
                        },
                        _ => {
                            self.failure = Some(
                                Failure::Step { context: step.context.clone(), cause },
                            );
                        },
                    },
                }
                lines
            },
            Step::PackageManager(call) | Step::Git(call) => {
                let warned = self.warned || failed;
                let lines = report_of(call, &outcome, warned);
                self.warned = warned;
                self.cursor = self.cursor + 1;
                lines
            },
        }
    }

    /// Why the run failed, if it did.
    pub fn failure(&self) -> (failure: Option<&Failure>)
        ensures
            match failure {
                Some(f) => self@.failure == Some(f@),
                None => self@.failure is None,
            },
    {
        self.failure.as_ref()
    }

    /// Whether a program has failed so far.
    pub fn warned(&self) -> (warned: bool)
        ensures
            warned == self@.warned,
    {
        self.warned
    }

    /// Whether every step was taken and none of them ended the run.
    pub fn succeeded(&self) -> (done: bool)
        ensures
            done == self@.succeeded(),
    {
        self.failure.is_none() && self.cursor >= self.plan.len()
    }

    /// The exit code of the process: 0 once the project stands,
    /// whatever was warned of; 1 if the run failed.
    pub fn exit_code(&self) -> (code: i32)
        ensures
            code == self@.exit_code(),
    {
        if self.failure.is_some() {
            1
        } else {
            0
        }
    }

    /// How far the run has come.
    pub fn progress(&self) -> (progress: Progress)
        ensures
            progress == self@.progress(),
    {
        match self.pending() {
            Some(Step::Directory(_)) => Progress::Start,
            Some(Step::File(_)) => Progress::DirectoriesCreated,
            Some(Step::PackageManager(_)) => Progress::FilesWritten,
            Some(Step::Git(_)) => Progress::PackageManagerAttempted,
            None => if self.failure.is_some() {
                Progress::Failed
            } else {
                Progress::Done
            },
        }
    }
}

/// Whether step `i` of a plan is a step that failed and that the
/// project cannot stand without.
pub open spec fn gate_failed(plan: Seq<StepView>, outcomes: Seq<OutcomeView>, i: int) -> bool {
    plan[i].is_gate() && outcomes[i] is Failed
}

/// Whether step `i` of a plan is a program that failed.
pub open spec fn program_failed(plan: Seq<StepView>, outcomes: Seq<OutcomeView>, i: int) -> bool {
    plan[i].is_program() && outcomes[i] is Failed
}

/// A run with no pending step stays as it is and prints nothing,
/// whatever is reported to it.
pub proof fn finished_run_stays(run: RunView, outcomes: Seq<OutcomeView>)
    requires
        run.pending() is None,
    ensures
        run.replay(outcomes) == run,
        forall|outcome: OutcomeView| #[trigger] run.output(outcome) == Seq::<LineView>::empty(),
    decreases outcomes.len(),
{
    if outcomes.len() > 0 {
        finished_run_stays(run, outcomes.drop_last());
    }
}

/// A run that is refused, because dependencies are missing or the
/// target exists, hands out no step, whatever the plan; it stays
/// failed and exits with 1.
pub proof fn refused_run_does_nothing(
    plan: Seq<StepView>,
    refusal: FailureView,
    outcomes: Seq<OutcomeView>,
)
    ensures
        RunView::start(plan, Some(refusal)).pending() is None,
        RunView::start(plan, Some(refusal)).replay(outcomes) == RunView::start(
            plan,
            Some(refusal),
        ),
        RunView::start(plan, Some(refusal)).exit_code() == 1,
        RunView::start(plan, Some(refusal)).progress() == Progress::Failed,
{
    finished_run_stays(RunView::start(plan, Some(refusal)), outcomes);
}

/// A step that is no gate never ends the run: whether it succeeds or
/// fails, the run moves on to the next step and still exits with 0.
/// This holds of every program and of the executable mark.
pub proof fn soft_step_never_ends_run(run: RunView, outcome: OutcomeView)
    requires
        run.pending() is Some,
        !run.pending()->0.is_gate(),
    ensures
        run.record(outcome).failure is None,
        run.record(outcome).cursor == run.cursor + 1,
        run.record(outcome).exit_code() == 0,
{
}

/// A best-effort step that fails is warned of on standard error, with
/// what was attempted and the cause, and leaves no other trace: the
/// run goes on as after a success.
pub proof fn failed_best_effort_step_is_warned_of(run: RunView, cause: Seq<char>)
    requires
        run.pending() matches Some(StepView::Directory(step) | StepView::File(step))
            && step.operation.is_best_effort(),
    ensures
        run.record(OutcomeView::Failed(cause)) == run.record(OutcomeView::Done),
        run.output(OutcomeView::Done) == Seq::<LineView>::empty(),
        run.output(OutcomeView::Failed(cause)) == seq![
            warning(
                match run.pending()->0 {
                    StepView::Directory(step) | StepView::File(step) => step.context,
                    _ => Seq::empty(),
                },
                cause,
            ),
        ],
{
}

/// A program never ends the run: whether it succeeds or fails, the run
/// moves on to the next step and still exits with 0.
pub proof fn program_never_ends_run(run: RunView, outcome: OutcomeView)
    requires
        run.pending() is Some,
        run.pending()->0.is_program(),
    ensures
        run.record(outcome).failure is None,
        run.record(outcome).cursor == run.cursor + 1,
        run.record(outcome).exit_code() == 0,
        run.record(outcome).warned == (run.warned || outcome is Failed),
{
}

/// A program that fails is warned of on standard error: first its
/// complaint with the cause, then how to do its work by hand.
pub proof fn failed_program_is_warned_of(call: InvocationView, cause: Seq<char>, warned: bool)
    ensures
        report(call, OutcomeView::Failed(cause), warned).len() >= 2,
        report(call, OutcomeView::Failed(cause), warned)[0] == (LineView {
            stream: Stream::Stderr,
            text: call.complaint + ": "@ + cause,
        }),
        report(call, OutcomeView::Failed(cause), warned)[1] == (LineView {
            stream: Stream::Stderr,
            text: call.remedy,
        }),
{
}

impl Progress {
    /// The place of a state on the way from `Start` to `Done`.
    pub open spec fn rank(self) -> nat {
        match self {
            Progress::Start => 0,
            Progress::DirectoriesCreated => 1,
            Progress::FilesWritten => 2,
            Progress::PackageManagerAttempted => 3,
            Progress::Done => 4,
            Progress::Failed => 5,
        }
    }
}

/// On a plan that comes stage by stage, a run never goes back: each
/// step leaves it where it was or further on, and `Done` and `Failed`
/// are final.
pub proof fn progress_never_goes_back(run: RunView, outcome: OutcomeView)
    requires
        staged(run.plan),
    ensures
        run.progress().rank() <= run.record(outcome).progress().rank(),
        run.progress() == Progress::Done ==> run.record(outcome).progress() == Progress::Done,
        run.progress() == Progress::Failed ==> run.record(outcome).progress() == Progress::Failed,
{
}

/// As long as no step has failed that the project cannot stand
/// without, the steps are taken in the order of the plan, one for each outcome, and a warning
/// is on record exactly if a program has failed.
pub proof fn steps_taken_in_order(plan: Seq<StepView>, outcomes: Seq<OutcomeView>)
    requires
        outcomes.len() <= plan.len(),
        forall|i: int| 0 <= i < outcomes.len() ==> !gate_failed(plan, outcomes, i),
    ensures
        RunView::start(plan, None).replay(outcomes) == (RunView {
            plan,
            cursor: outcomes.len(),
            warned: exists|i: int| 0 <= i < outcomes.len() && program_failed(plan, outcomes, i),
            failure: None,
        }),
    decreases outcomes.len(),
{
    if outcomes.len() > 0 {
        let before = outcomes.drop_last();
        let last = outcomes.len() - 1;
        assert forall|i: int| 0 <= i < before.len() implies !gate_failed(plan, before, i) by {
            assert(!gate_failed(plan, outcomes, i));
        }
        steps_taken_in_order(plan, before);
        assert(!gate_failed(plan, outcomes, last));
        let earlier = exists|i: int| 0 <= i < before.len() && program_failed(plan, before, i);
        let now = exists|i: int| 0 <= i < outcomes.len() && program_failed(plan, outcomes, i);
        if earlier {
            let i = choose|i: int| 0 <= i < before.len() && program_failed(plan, before, i);
            assert(program_failed(plan, outcomes, i));
        }
        if program_failed(plan, outcomes, last) {
            assert(now);
        }
        if now {
            let i = choose|i: int| 0 <= i < outcomes.len() && program_failed(plan, outcomes, i);
            if i < last {
                assert(program_failed(plan, before, i));
            }
        }
    }
}

/// A run in which no step fails that the project cannot stand without
/// takes every step of its plan and exits with 0, whatever its
/// programs and its best-effort steps did.
pub proof fn run_succeeds_unless_gate_fails(plan: Seq<StepView>, outcomes: Seq<OutcomeView>)
    requires
        outcomes.len() == plan.len(),
        forall|i: int| 0 <= i < outcomes.len() ==> !gate_failed(plan, outcomes, i),
    ensures
        RunView::start(plan, None).replay(outcomes).succeeded(),
        RunView::start(plan, None).replay(outcomes).exit_code() == 0,
        RunView::start(plan, None).replay(outcomes).progress() == Progress::Done,
{
    steps_taken_in_order(plan, outcomes);
}

/// A run stops at the first step that fails and that the project
/// cannot stand without: the steps before it were taken, none after
/// it is, and the run fails with the context of that step and the
/// cause reported, and exits with 1.
pub proof fn run_stops_at_first_gate_failure(
    plan: Seq<StepView>,
    outcomes: Seq<OutcomeView>,
    first: int,
)
    requires
        outcomes.len() <= plan.len(),
        0 <= first < outcomes.len(),
        gate_failed(plan, outcomes, first),
        forall|i: int| 0 <= i < first ==> !gate_failed(plan, outcomes, i),
    ensures
        RunView::start(plan, None).replay(outcomes).cursor == first,
        RunView::start(plan, None).replay(outcomes).pending() is None,
        RunView::start(plan, None).replay(outcomes).exit_code() == 1,
        RunView::start(plan, None).replay(outcomes).failure == Some(
            FailureView::Step {
                context: match plan[first] {
                    StepView::Directory(step) | StepView::File(step) => step.context,
                    _ => Seq::empty(),
                },
                cause: outcomes[first]->Failed_0,
            },
        ),
    decreases outcomes.len() - first,
{
    let before = outcomes.drop_last();
    if first == outcomes.len() - 1 {
        assert forall|i: int| 0 <= i < before.len() implies !gate_failed(plan, before, i) by {
            assert(!gate_failed(plan, outcomes, i));
        }
        steps_taken_in_order(plan, before);
    } else {
        assert forall|i: int| 0 <= i < first implies !gate_failed(plan, before, i) by {
            assert(!gate_failed(plan, outcomes, i));
        }
        run_stops_at_first_gate_failure(plan, before, first);
    }
}

} // verus!
