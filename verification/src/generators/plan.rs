//! The steps of a generation run, as plain values: what is to be done
//! on the file system and which programs are to be run.

use crate::views;
use vstd::prelude::*;

verus! {

/// What a step does on the file system. Paths are relative to the
/// project directory.
#[derive(Debug, Clone, Copy, PartialEq, Eq, Structural)]
pub enum Operation {
    /// Create the project directory itself; fails if it exists.
    CreateRoot,
    /// Create a directory below the project directory, with its
    /// parents; succeeds if it exists.
    CreateDirectory,
    /// Write a file with the given contents.
    WriteFile,
    /// Mark a file as executable, where the platform knows such a mark.
    /// The mark is best effort: the project stands without it.
    MakeExecutable,
}

impl Operation {
    /// Whether the project stands without the step: whether a failure
    /// of it is only warned of.
    pub open spec fn is_best_effort(self) -> bool {
        self == Operation::MakeExecutable
    }
}

/// A step on the file system. Its failure ends the run, unless the
/// operation is best effort.
#[derive(Debug)]
pub struct FileStep {
    pub operation: Operation,
    /// The path below the project directory; empty for the directory
    /// itself.
    pub path: String,
    /// What is written; empty unless a file is written.
    pub contents: String,
    /// What is reported, before the cause, when the step fails.
    pub context: String,
}

/// The mathematical value of a [`FileStep`].
pub struct FileStepView {
    pub operation: Operation,
    pub path: Seq<char>,
    pub contents: Seq<char>,
    pub context: Seq<char>,
}

impl View for FileStep {
    type V = FileStepView;

    open spec fn view(&self) -> FileStepView {
        FileStepView {
            operation: self.operation,
            path: self.path@,
            contents: self.contents@,
            context: self.context@,
        }
    }
}

impl FileStepView {
    /// The step that creates the project directory at `project_path`.
    pub open spec fn root(project_path: Seq<char>) -> FileStepView {
        FileStepView {
            operation: Operation::CreateRoot,
            path: Seq::empty(),
            contents: Seq::empty(),
            context: "Failed to create project directory: "@ + project_path,
        }
    }

    /// The step that creates the directory `path` below the project
    /// directory.
    pub open spec fn directory(path: Seq<char>) -> FileStepView {
        FileStepView {
            operation: Operation::CreateDirectory,
            path,
            contents: Seq::empty(),
            context: "Failed to create directory: "@ + path,
        }
    }

    /// The step that writes `contents` to the file `path`.
    pub open spec fn file(path: Seq<char>, contents: Seq<char>) -> FileStepView {
        FileStepView {
            operation: Operation::WriteFile,
            path,
            contents,
            context: "Failed to create "@ + path,
        }
    }

    /// The step that marks the file `path` as executable.
    pub open spec fn executable(path: Seq<char>) -> FileStepView {
        FileStepView {
            operation: Operation::MakeExecutable,
            path,
            contents: Seq::empty(),
            context: "Failed to make "@ + path + " executable"@,
        }
    }
}

impl FileStep {
    /// The step that creates the project directory at `project_path`.
    pub fn root(project_path: &str) -> (step: FileStep)
        ensures
            step@ == FileStepView::root(project_path@),
    {
        let mut context = String::from_str("Failed to create project directory: ");
        context.append(project_path);
        FileStep { operation: Operation::CreateRoot, path: String::new(), contents: String::new(), context }
    }

    /// The step that creates the directory `path` below the project
    /// directory.
    pub fn directory(path: &str) -> (step: FileStep)
        ensures
            step@ == FileStepView::directory(path@),
    {
        let mut context = String::from_str("Failed to create directory: ");
        context.append(path);
        FileStep {
            operation: Operation::CreateDirectory,
            path: String::from_str(path),
            contents: String::new(),
            context,
        }
    }

    /// The step that writes `contents` to the file `path`.
    pub fn file(path: &str, contents: String) -> (step: FileStep)
        ensures
            step@ == FileStepView::file(path@, contents@),
    {
        let mut context = String::from_str("Failed to create ");
        context.append(path);
        FileStep { operation: Operation::WriteFile, path: String::from_str(path), contents, context }
    }

    /// The step that marks the file `path` as executable.
    pub fn executable(path: &str) -> (step: FileStep)
        ensures
            step@ == FileStepView::executable(path@),
    {
        let mut context = String::from_str("Failed to make ");
        context.append(path);
        context.append(" executable");
        FileStep {
            operation: Operation::MakeExecutable,
            path: String::from_str(path),
            contents: String::new(),
            context,
        }
    }
}

/// Where a line is printed.
#[derive(Debug, Clone, Copy, PartialEq, Eq, Structural)]
pub enum Stream {
    /// Standard output: progress and success.
    Stdout,
    /// Standard error: warnings and failures.
    Stderr,
}

/// A line of output.
#[derive(Debug)]
pub struct Line {
    pub stream: Stream,
    pub text: String,
}

/// The mathematical value of a [`Line`].
pub struct LineView {
    pub stream: Stream,
    pub text: Seq<char>,
}

impl View for Line {
    type V = LineView;

    open spec fn view(&self) -> LineView {
        LineView { stream: self.stream, text: self.text@ }
    }
}

/// The lines that print the given texts to one stream, in order.
pub open spec fn lines_on(stream: Stream, texts: Seq<Seq<char>>) -> Seq<LineView> {
    texts.map_values(|text: Seq<char>| LineView { stream, text })
}

/// A program to run in the project directory. Its failure is reported
/// as a warning and does not end the run.
#[derive(Debug)]
pub struct Invocation {
    /// Progress lines, printed to standard output before the program
    /// is run.
    pub announce: Vec<String>,
    pub program: String,
    pub args: Vec<String>,
    /// Printed to standard output when the program succeeds.
    pub success: Vec<String>,
    /// What is reported, before the cause, when the program fails.
    pub complaint: String,
    /// How the user can do by hand what the program failed to do.
    pub remedy: String,
    /// Printed after the outcome if no program of the run has failed
    /// so far.
    pub closing_clean: Vec<Line>,
    /// Printed after the outcome if some program of the run has failed.
    pub closing_warned: Vec<Line>,
}

/// The mathematical value of an [`Invocation`].
#[verifier::ext_equal]
pub struct InvocationView {
    pub announce: Seq<Seq<char>>,
    pub program: Seq<char>,
    pub args: Seq<Seq<char>>,
    pub success: Seq<Seq<char>>,
    pub complaint: Seq<char>,
    pub remedy: Seq<char>,
    pub closing_clean: Seq<LineView>,
    pub closing_warned: Seq<LineView>,
}

impl View for Invocation {
    type V = InvocationView;

    open spec fn view(&self) -> InvocationView {
        InvocationView {
            announce: views(self.announce@),
            program: self.program@,
            args: views(self.args@),
            success: views(self.success@),
            complaint: self.complaint@,
            remedy: self.remedy@,
            closing_clean: views(self.closing_clean@),
            closing_warned: views(self.closing_warned@),
        }
    }
}

/// One step of a generation run, by the stage it belongs to.
#[derive(Debug)]
pub enum Step {
    Directory(FileStep),
    File(FileStep),
    PackageManager(Invocation),
    Git(Invocation),
}

/// The mathematical value of a [`Step`].
pub enum StepView {
    Directory(FileStepView),
    File(FileStepView),
    PackageManager(InvocationView),
    Git(InvocationView),
}

impl View for Step {
    type V = StepView;

    open spec fn view(&self) -> StepView {
        match self {
            Step::Directory(step) => StepView::Directory(step@),
            Step::File(step) => StepView::File(step@),
            Step::PackageManager(call) => StepView::PackageManager(call@),
            Step::Git(call) => StepView::Git(call@),
        }
    }
}

impl StepView {
    /// The place of the step's stage in a run: directories, files, the
    /// package manager, version control.
    pub open spec fn rank(self) -> nat {
        match self {
            StepView::Directory(_) => 0,
            StepView::File(_) => 1,
            StepView::PackageManager(_) => 2,
            StepView::Git(_) => 3,
        }
    }

    /// Whether a failure of the step ends the run. The steps on the
    /// file system do, but for those that are best effort; a program
    /// that fails is only warned of.
    pub open spec fn is_gate(self) -> bool {
        match self {
            StepView::Directory(step) | StepView::File(step) => !step.operation.is_best_effort(),
            _ => false,
        }
    }

    /// Whether the step runs a program.
    pub open spec fn is_program(self) -> bool {
        self is PackageManager || self is Git
    }
}

/// Whether the steps of a plan come stage by stage: directories, then
/// files, then the package manager, then version control.
pub open spec fn staged(plan: Seq<StepView>) -> bool {
    forall|i: int, j: int|
        0 <= i <= j < plan.len() ==> (#[trigger] plan[i]).rank() <= (#[trigger] plan[j]).rank()
}

/// Appends a text to a list of texts.
pub fn push_text(texts: &mut Vec<String>, text: &str)
    ensures
        views(final(texts)@) == views(old(texts)@).push(text@),
{
    texts.push(String::from_str(text));
}

/// Appends a line to a list of lines.
pub fn push_line(lines: &mut Vec<Line>, stream: Stream, text: &str)
    ensures
        views(final(lines)@) == views(old(lines)@).push(LineView { stream, text: text@ }),
{
    lines.push(Line { stream, text: String::from_str(text) });
}

/// The plan of a run: the directory steps, then the file steps, then
/// the calls of the package manager, then the call of version control.
pub open spec fn assembled(
    directories: Seq<FileStepView>,
    files: Seq<FileStepView>,
    package_manager: Seq<InvocationView>,
    git: InvocationView,
) -> Seq<StepView> {
    directories.map_values(|step: FileStepView| StepView::Directory(step)) + files.map_values(
        |step: FileStepView| StepView::File(step),
    ) + package_manager.map_values(|call: InvocationView| StepView::PackageManager(call))
        + seq![StepView::Git(git)]
}

/// A plan that is assembled from its four stages comes stage by stage.
pub proof fn assembled_is_staged(
    directories: Seq<FileStepView>,
    files: Seq<FileStepView>,
    package_manager: Seq<InvocationView>,
    git: InvocationView,
)
    ensures
        staged(assembled(directories, files, package_manager, git)),
{
    let plan = assembled(directories, files, package_manager, git);
    assert forall|i: int| 0 <= i < plan.len() implies (#[trigger] plan[i]).rank() == (if i
        < directories.len() {
        0nat
    } else if i < directories.len() + files.len() {
        1nat
    } else if i < directories.len() + files.len() + package_manager.len() {
        2nat
    } else {
        3nat
    }) by {}
}

/// Puts the four stages of a run together, in their fixed order.
pub fn assemble(
    directories: Vec<FileStep>,
    files: Vec<FileStep>,
    package_manager: Vec<Invocation>,
    git: Invocation,
) -> (plan: Vec<Step>)
    ensures
        views(plan@) == assembled(
            views(directories@),
            views(files@),
            views(package_manager@),
            git@,
        ),
        staged(views(plan@)),
{
    let ghost d = views(directories@);
    let ghost f = views(files@);
    let ghost p = views(package_manager@);
    let mut plan: Vec<Step> = Vec::new();
    let mut directories = directories;
    let mut files = files;
    let mut package_manager = package_manager;
    while directories.len() > 0
        invariant
            views(plan@) + views(directories@).map_values(
                |step: FileStepView| StepView::Directory(step),
            ) == d.map_values(|step: FileStepView| StepView::Directory(step)),
        decreases directories.len(),
    {
        let step = directories.remove(0);
        plan.push(Step::Directory(step));
    }
    let ghost head = views(plan@);
    while files.len() > 0
        invariant
            views(plan@) + views(files@).map_values(|step: FileStepView| StepView::File(step))
                == head + f.map_values(|step: FileStepView| StepView::File(step)),
        decreases files.len(),
    {
        let step = files.remove(0);
        plan.push(Step::File(step));
    }
    let ghost head = views(plan@);
    while package_manager.len() > 0
        invariant
            views(plan@) + views(package_manager@).map_values(
                |call: InvocationView| StepView::PackageManager(call),
            ) == head + p.map_values(|call: InvocationView| StepView::PackageManager(call)),
        decreases package_manager.len(),
    {
        let call = package_manager.remove(0);
        plan.push(Step::PackageManager(call));
    }
    plan.push(Step::Git(git));
    proof {
        assert(views(plan@) =~= assembled(d, f, p, git@));
        assembled_is_staged(d, f, p, git@);
    }
    plan
}

} // verus!
