//! The generator of Python projects: a single flat script with its
//! metadata files, set up with `uv`.

use crate::generators::plan::{
    assemble, push_line, push_text, FileStep, FileStepView, Invocation, InvocationView, Line,
    LineView, Step, Stream,
};
use crate::generators::python_templates::{
    GITIGNORE, PYPROJECT_HEAD, PYPROJECT_TAIL, README_0, README_1, README_2, README_3,
    REQUIREMENTS, SERVER,
};
use crate::generators::{git_init_call, Generator};
use crate::views;
use crate::Tool;
use vstd::prelude::*;

verus! {

/// The text of `pyproject.toml` for a project.
pub open spec fn pyproject_toml(name: Seq<char>) -> Seq<char> {
    PYPROJECT_HEAD@ + name + PYPROJECT_TAIL@
}

/// The text of `README.md` for a project.
pub open spec fn readme(name: Seq<char>) -> Seq<char> {
    README_0@ + name + README_1@ + name + README_2@ + name + README_3@
}

/// The directory steps of a Python project: the project directory and
/// nothing below it.
pub open spec fn directories(name: Seq<char>) -> Seq<FileStepView> {
    seq![FileStepView::root(name)]
}

/// The file steps of a Python project: five files, and the mark that
/// makes the server script executable. The mark is best effort: the
/// run goes on if it fails.
pub open spec fn files(name: Seq<char>) -> Seq<FileStepView> {
    seq![
        FileStepView::file("pyproject.toml"@, pyproject_toml(name)),
        FileStepView::file("requirements.txt"@, REQUIREMENTS@),
        FileStepView::file(".gitignore"@, GITIGNORE@),
        FileStepView::file("server.py"@, SERVER@),
        FileStepView::executable("server.py"@),
        FileStepView::file("README.md"@, readme(name)),
    ]
}

/// What is printed once the virtual environment was attempted.
pub open spec fn next_steps() -> Seq<LineView> {
    seq![
        LineView { stream: Stream::Stdout, text: ""@ },
        LineView { stream: Stream::Stdout, text: "Success: 📦 Python virtual environment created!"@ },
        LineView { stream: Stream::Stdout, text: ""@ },
        LineView { stream: Stream::Stdout, text: "Next steps:"@ },
        LineView { stream: Stream::Stdout, text: "1. Activate the virtual environment:"@ },
        LineView {
            stream: Stream::Stdout,
            text: "   $  source .venv/bin/activate  # On Windows: .venv\\Scripts\\activate"@,
        },
        LineView { stream: Stream::Stdout, text: "2. Install dependencies:"@ },
        LineView { stream: Stream::Stdout, text: "   $  uv pip install -r requirements.txt"@ },
        LineView {
            stream: Stream::Stdout,
            text: "3. Run the server in test mode to verify it's working:"@,
        },
        LineView { stream: Stream::Stdout, text: "   $  python server.py --test"@ },
        LineView { stream: Stream::Stdout, text: ""@ },
        LineView { stream: Stream::Stdout, text: "Note:"@ },
        LineView {
            stream: Stream::Stdout,
            text: "If you run the server without --test, it will appear to hang. This is normal!"@,
        },
        LineView {
            stream: Stream::Stdout,
            text: "The server is waiting for MCP protocol messages on stdin and is designed to be"@,
        },
        LineView { stream: Stream::Stdout, text: "used with a desktop client or other MCP clients."@ },
        LineView { stream: Stream::Stdout, text: ""@ },
        LineView {
            stream: Stream::Stdout,
            text: "See the README.md for more information on how to set up with a desktop client."@,
        },
    ]
}

/// The call that creates the virtual environment. It is `uv venv`
/// whatever tool was chosen.
pub open spec fn create_environment() -> InvocationView {
    InvocationView {
        announce: seq!["📦 Creating Python virtual environment with uv..."@],
        program: "uv"@,
        args: seq!["venv"@],
        success: seq!["✅ Virtual environment created successfully"@],
        complaint: "⚠️ Warning: Failed to create virtual environment"@,
        remedy: "Please run 'uv venv' manually in the project directory"@,
        closing_clean: next_steps(),
        closing_warned: next_steps(),
    }
}

/// What is printed once the virtual environment was attempted.
fn next_steps_lines() -> (lines: Vec<Line>)
    ensures
        views(lines@) == next_steps(),
{
    let mut lines: Vec<Line> = Vec::new();
    push_line(&mut lines, Stream::Stdout, "");
    push_line(&mut lines, Stream::Stdout, "Success: 📦 Python virtual environment created!");
    push_line(&mut lines, Stream::Stdout, "");
    push_line(&mut lines, Stream::Stdout, "Next steps:");
    push_line(&mut lines, Stream::Stdout, "1. Activate the virtual environment:");
    push_line(
        &mut lines,
        Stream::Stdout,
        "   $  source .venv/bin/activate  # On Windows: .venv\\Scripts\\activate",
    );
    push_line(&mut lines, Stream::Stdout, "2. Install dependencies:");
    push_line(&mut lines, Stream::Stdout, "   $  uv pip install -r requirements.txt");
    push_line(&mut lines, Stream::Stdout, "3. Run the server in test mode to verify it's working:");
    push_line(&mut lines, Stream::Stdout, "   $  python server.py --test");
    push_line(&mut lines, Stream::Stdout, "");
    push_line(&mut lines, Stream::Stdout, "Note:");
    push_line(
        &mut lines,
        Stream::Stdout,
        "If you run the server without --test, it will appear to hang. This is normal!",
    );
    push_line(
        &mut lines,
        Stream::Stdout,
        "The server is waiting for MCP protocol messages on stdin and is designed to be",
    );
    push_line(&mut lines, Stream::Stdout, "used with a desktop client or other MCP clients.");
    push_line(&mut lines, Stream::Stdout, "");
    push_line(
        &mut lines,
        Stream::Stdout,
        "See the README.md for more information on how to set up with a desktop client.",
    );
    lines
}

/// The generator of a Python project.
#[derive(Debug)]
pub struct PythonGenerator {
    project_name: String,
    tool: Tool,
}

impl PythonGenerator {
    /// The path of the project directory: the project name, taken as a
    /// relative path as it is.
    pub fn project_path(&self) -> (path: &str)
        ensures
            path@ == self.name(),
    {
        self.project_name.as_str()
    }

    fn create_pyproject_toml(&self) -> (step: FileStep)
        ensures
            step@ == FileStepView::file("pyproject.toml"@, pyproject_toml(self.name())),
    {
        let mut text = String::from_str(PYPROJECT_HEAD);
        text.append(self.project_name.as_str());
        text.append(PYPROJECT_TAIL);
        FileStep::file("pyproject.toml", text)
    }

    fn create_requirements_txt(&self) -> (step: FileStep)
        ensures
            step@ == FileStepView::file("requirements.txt"@, REQUIREMENTS@),
    {
        FileStep::file("requirements.txt", String::from_str(REQUIREMENTS))
    }

    fn create_gitignore(&self) -> (step: FileStep)
        ensures
            step@ == FileStepView::file(".gitignore"@, GITIGNORE@),
    {
        FileStep::file(".gitignore", String::from_str(GITIGNORE))
    }

    /// The server script is written and then marked executable, as far
    /// as the platform allows.
    fn create_server_file(&self) -> (steps: (FileStep, FileStep))
        ensures
            steps.0@ == FileStepView::file("server.py"@, SERVER@),
            steps.1@ == FileStepView::executable("server.py"@),
    {
        (FileStep::file("server.py", String::from_str(SERVER)), FileStep::executable("server.py"))
    }

    fn create_readme(&self) -> (step: FileStep)
        ensures
            step@ == FileStepView::file("README.md"@, readme(self.name())),
    {
        let name = self.project_name.as_str();
        let mut text = String::from_str(README_0);
        text.append(name);
        text.append(README_1);
        text.append(name);
        text.append(README_2);
        text.append(name);
        text.append(README_3);
        FileStep::file("README.md", text)
    }
}

impl Generator for PythonGenerator {
    closed spec fn name(&self) -> Seq<char> {
        self.project_name@
    }

    closed spec fn chosen_tool(&self) -> Tool {
        self.tool
    }

    open spec fn directory_steps(&self) -> Seq<FileStepView> {
        directories(self.name())
    }

    open spec fn file_steps(&self) -> Seq<FileStepView> {
        files(self.name())
    }

    open spec fn package_manager_calls(&self) -> Seq<InvocationView> {
        seq![create_environment()]
    }

    fn new(project_name: &str, tool: &Tool) -> (generator: Self) {
        PythonGenerator { project_name: String::from_str(project_name), tool: *tool }
    }

    fn generate(&self) -> (plan: Vec<Step>) {
        assemble(
            self.create_directories(),
            self.create_files(),
            self.init_package_manager(),
            self.init_git(),
        )
    }

    fn create_directories(&self) -> (steps: Vec<FileStep>) {
        let mut steps: Vec<FileStep> = Vec::new();
        steps.push(FileStep::root(self.project_path()));
        steps
    }

    fn create_files(&self) -> (steps: Vec<FileStep>) {
        let mut steps: Vec<FileStep> = Vec::new();
        steps.push(self.create_pyproject_toml());
        steps.push(self.create_requirements_txt());
        steps.push(self.create_gitignore());
        let (script, mark) = self.create_server_file();
        steps.push(script);
        steps.push(mark);
        steps.push(self.create_readme());
        steps
    }

    fn init_package_manager(&self) -> (calls: Vec<Invocation>) {
        let mut announce: Vec<String> = Vec::new();
        push_text(&mut announce, "📦 Creating Python virtual environment with uv...");
        let mut args: Vec<String> = Vec::new();
        push_text(&mut args, "venv");
        let mut success: Vec<String> = Vec::new();
        push_text(&mut success, "✅ Virtual environment created successfully");
        let call = Invocation {
            announce,
            program: String::from_str("uv"),
            args,
            success,
            complaint: String::from_str("⚠️ Warning: Failed to create virtual environment"),
            remedy: String::from_str("Please run 'uv venv' manually in the project directory"),
            closing_clean: next_steps_lines(),
            closing_warned: next_steps_lines(),
        };
        assert(call@ =~~= create_environment());
        let mut calls: Vec<Invocation> = Vec::new();
        calls.push(call);
        calls
    }

    fn init_git(&self) -> (call: Invocation) {
        git_init_call()
    }
}

} // verus!
