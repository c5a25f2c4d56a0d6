//! The orchestration of one invocation: which tool is used, whether
//! the run may begin, which generator plans it, and what the user is
//! told to do next.

use crate::generators::plan::{assembled, push_text, staged, FileStepView, Step, StepView};
use crate::generators::python::{self, PythonGenerator};
use crate::generators::run::{
    finished_run_stays, Failure, FailureView, OutcomeView, Progress, Run, RunView,
};
use crate::generators::typescript::{self, TypeScriptGenerator};
use crate::generators::{git_init, Generator};
use crate::utils::dependency_checker::{
    check_dependencies, checked_view, manager, verdict, Dependency, DependencyView, Environment,
};
use crate::{default_tool, get_default_tool, views, Cli, Language, Tool};
use vstd::prelude::*;

verus! {

/// The tool that is used: the one the caller named, else the default
/// of the language. A tool of the other language is taken as it is.
pub open spec fn effective_tool(language: Language, tool: Option<Tool>) -> Tool {
    match tool {
        Some(t) => t,
        None => default_tool(language),
    }
}

/// The plan for a project: that of the generator of its language.
pub open spec fn plan_of(name: Seq<char>, language: Language, tool: Tool) -> Seq<StepView> {
    if language.is_python() {
        assembled(
            python::directories(name),
            python::files(name),
            seq![python::create_environment()],
            git_init(),
        )
    } else {
        assembled(
            typescript::directories(name),
            typescript::files(name, tool),
            seq![typescript::install_runtime(tool), typescript::install_development(tool)],
            git_init(),
        )
    }
}

/// Why a run may not begin, if it may not: missing dependencies come
/// before an existing target.
pub open spec fn refusal(checked: Result<(), Seq<DependencyView>>, target_exists: bool) -> Option<
    FailureView,
> {
    match checked {
        Err(missing) => Some(FailureView::MissingDependencies(missing)),
        Ok(_) => if target_exists {
            Some(FailureView::TargetExists)
        } else {
            None
        },
    }
}

/// What the user is told to run once the project stands, after
/// changing into its directory. Lines that begin with `#` are
/// comments. For a TypeScript project set up with a tool that is no
/// JavaScript package manager, no command is named.
pub open spec fn next_steps(language: Language, tool: Tool) -> Seq<Seq<char>> {
    if language.is_python() {
        seq![
            "# Activate virtual environment"@,
            "source .venv/bin/activate  # On Windows: .venv\\Scripts\\activate"@,
            "# Install dependencies"@,
            "uv pip install -r requirements.txt"@,
            "# Run the server"@,
            "python server.py"@,
        ]
    } else {
        match tool {
            Tool::Pnpm => seq![
                "# Install dependencies"@,
                "pnpm install"@,
                "# Run the server"@,
                "pnpm dev"@,
            ],
            Tool::Yarn => seq![
                "# Install dependencies"@,
                "yarn"@,
                "# Run the server"@,
                "yarn dev"@,
            ],
            Tool::Npm => seq![
                "# Install dependencies"@,
                "npm install"@,
                "# Run the server"@,
                "npm run dev"@,
            ],
            Tool::Uv => seq!["# Install dependencies"@, "# Run the server"@],
        }
    }
}

impl Cli {
    /// The tool that is used for this invocation.
    pub fn resolve_tool(&self) -> (tool: Tool)
        ensures
            tool == effective_tool(self.language, self.tool),
    {
        match self.tool {
            Some(tool) => tool,
            None => get_default_tool(&self.language),
        }
    }
}

/// Plans a project with the generator of its language.
pub fn plan(name: &str, language: &Language, tool: &Tool) -> (steps: Vec<Step>)
    ensures
        views(steps@) == plan_of(name@, *language, *tool),
        staged(views(steps@)),
{
    match language {
        Language::Python | Language::Py => {
            let generator = PythonGenerator::new(name, tool);
            generator.generate()
        },
        Language::Typescript | Language::Ts => {
            let generator = TypeScriptGenerator::new(name, tool);
            generator.generate()
        },
    }
}

/// Begins the run of an invocation, given what the dependency check
/// returned and whether the project path exists already.
///
/// If dependencies are missing, or else if the path exists, the run
/// begins as failed and hands out no step: nothing is touched.
/// Otherwise it begins at the first step of the plan of the language's
/// generator, for the tool that the invocation resolves to.
pub fn begin(cli: &Cli, checked: Result<(), Vec<Dependency>>, target_exists: bool) -> (run: Run)
    ensures
        run@ == RunView::start(
            plan_of(cli.project_name@, cli.language, effective_tool(cli.language, cli.tool)),
            refusal(checked_view(checked), target_exists),
        ),
{
    let tool = cli.resolve_tool();
    let steps = plan(cli.project_name.as_str(), &cli.language, &tool);
    let refused = match checked {
        Err(missing) => Some(Failure::MissingDependencies(missing)),
        Ok(_) => if target_exists {
            Some(Failure::TargetExists)
        } else {
            None
        },
    };
    Run::new(steps, refused)
}

/// Checks this host for what the invocation needs, and begins its run
/// as [`begin`] does. The check is made for the tool that the
/// invocation resolves to. What it finds is a fact of the host, so the
/// contract says that the run begins as it does on some host.
pub fn start(cli: &Cli, target_exists: bool) -> (run: Run)
    ensures
        exists|env: Environment|
            run@ == RunView::start(
                plan_of(cli.project_name@, cli.language, effective_tool(cli.language, cli.tool)),
                refusal(
                    #[trigger] verdict(cli.language, effective_tool(cli.language, cli.tool), env),
                    target_exists,
                ),
            ),
{
    let tool = cli.resolve_tool();
    let checked = check_dependencies(&cli.language, &tool);
    begin(cli, checked, target_exists)
}

/// What the user is told to run once the project stands.
pub fn next_steps_for(language: &Language, tool: &Tool) -> (lines: Vec<String>)
    ensures
        views(lines@) == next_steps(*language, *tool),
{
    let mut lines: Vec<String> = Vec::new();
    match language {
        Language::Python | Language::Py => {
            push_text(&mut lines, "# Activate virtual environment");
            push_text(
                &mut lines,
                "source .venv/bin/activate  # On Windows: .venv\\Scripts\\activate",
            );
            push_text(&mut lines, "# Install dependencies");
            push_text(&mut lines, "uv pip install -r requirements.txt");
            push_text(&mut lines, "# Run the server");
            push_text(&mut lines, "python server.py");
        },
        Language::Typescript | Language::Ts => {
            push_text(&mut lines, "# Install dependencies");
            match tool {
                Tool::Pnpm => {
                    push_text(&mut lines, "pnpm install");
                },
                Tool::Yarn => {
                    push_text(&mut lines, "yarn");
                },
                Tool::Npm => {
                    push_text(&mut lines, "npm install");
                },
                _ => {},
            }
            push_text(&mut lines, "# Run the server");
            match tool {
                Tool::Pnpm => {
                    push_text(&mut lines, "pnpm dev");
                },
                Tool::Yarn => {
                    push_text(&mut lines, "yarn dev");
                },
                Tool::Npm => {
                    push_text(&mut lines, "npm run dev");
                },
                _ => {},
            }
        },
    }
    lines
}

/// Every language has a default tool, and it is one that the
/// dependency check looks for under that language.
pub proof fn default_tool_is_checked(language: Language)
    ensures
        default_tool(language) == (if language.is_python() {
            Tool::Uv
        } else {
            Tool::Pnpm
        }),
        effective_tool(language, None) == default_tool(language),
        manager(language, default_tool(language)) is Some,
{
}

/// Every plan begins with the step that creates the project
/// directory, which fails if the directory exists.
pub proof fn plan_begins_with_root(name: Seq<char>, language: Language, tool: Tool)
    ensures
        plan_of(name, language, tool).len() > 0,
        plan_of(name, language, tool)[0] == StepView::Directory(FileStepView::root(name)),
{
}

/// An invocation whose project path exists already is refused with
/// `TargetExists`: it hands out no step, so what stands at the path is
/// left as it is, and it exits with 1. This holds of a second
/// invocation under the name of a first, and of a name that a file
/// bears.
pub proof fn existing_target_is_refused(
    name: Seq<char>,
    language: Language,
    tool: Tool,
    outcomes: Seq<OutcomeView>,
)
    ensures
        ({
            let run = RunView::start(plan_of(name, language, tool), refusal(Ok(()), true));
            &&& run.failure == Some(FailureView::TargetExists)
            &&& run.pending() is None
            &&& run.replay(outcomes) == run
            &&& !run.succeeded()
            &&& run.exit_code() == 1
            &&& run.progress() == Progress::Failed
        }),
{
    finished_run_stays(
        RunView::start(plan_of(name, language, tool), refusal(Ok(()), true)),
        outcomes,
    );
}

/// An invocation that lacks a dependency is refused with the list of
/// what is missing, whether or not the project path exists, and hands
/// out no step.
pub proof fn missing_dependencies_are_refused(
    name: Seq<char>,
    language: Language,
    tool: Tool,
    missing: Seq<DependencyView>,
    target_exists: bool,
    outcomes: Seq<OutcomeView>,
)
    ensures
        ({
            let run = RunView::start(
                plan_of(name, language, tool),
                refusal(Err(missing), target_exists),
            );
            &&& run.failure == Some(FailureView::MissingDependencies(missing))
            &&& run.pending() is None
            &&& run.replay(outcomes) == run
            &&& run.exit_code() == 1
        }),
{
    finished_run_stays(
        RunView::start(plan_of(name, language, tool), refusal(Err(missing), target_exists)),
        outcomes,
    );
}

} // verus!
