//! The generator of TypeScript projects: a source tree and a build
//! directory, set up with pnpm, yarn or npm.

use crate::generators::plan::{
    assemble, push_line, push_text, FileStep, FileStepView, Invocation, InvocationView, Line,
    LineView, Step, Stream,
};
use crate::generators::typescript_templates::{
    GITIGNORE, PACKAGE_0, PACKAGE_1, PACKAGE_2, PRETTIERIGNORE, PRETTIERRC, README_0, README_1,
    README_2, README_3, README_4, README_5, README_6, README_7, SERVER, TSCONFIG,
};
use crate::generators::{git_init_call, Generator};
use crate::views;
use crate::Tool;
use vstd::prelude::*;

verus! {

/// The name under which a tool is invoked. A tool that is no
/// JavaScript package manager falls back to `npm`.
pub open spec fn command(tool: Tool) -> Seq<char> {
    match tool {
        Tool::Pnpm => "pnpm"@,
        Tool::Yarn => "yarn"@,
        Tool::Npm => "npm"@,
        Tool::Uv => "npm"@,
    }
}

/// The text of `package.json` for a project: the project name is the
/// package's name and the name of its runnable command.
pub open spec fn package_json(name: Seq<char>) -> Seq<char> {
    PACKAGE_0@ + name + PACKAGE_1@ + name + PACKAGE_2@
}

/// The text of `README.md` for a project and the command of its
/// package manager.
pub open spec fn readme(name: Seq<char>, manager: Seq<char>) -> Seq<char> {
    README_0@ + name + README_1@ + manager + README_2@ + manager + README_3@ + manager + README_4@
        + manager + README_5@ + name + README_6@ + name + README_7@
}

/// The directory steps of a TypeScript project: the project directory,
/// the source tree and the build directory.
pub open spec fn directories(name: Seq<char>) -> Seq<FileStepView> {
    seq![
        FileStepView::root(name),
        FileStepView::directory("src"@),
        FileStepView::directory("build"@),
    ]
}

/// The file steps of a TypeScript project. The server source goes to
/// the source tree; nothing is written to the build directory.
pub open spec fn files(name: Seq<char>, tool: Tool) -> Seq<FileStepView> {
    seq![
        FileStepView::file("package.json"@, package_json(name)),
        FileStepView::file("tsconfig.json"@, TSCONFIG@),
        FileStepView::file(".gitignore"@, GITIGNORE@),
        FileStepView::file(".prettierrc"@, PRETTIERRC@),
        FileStepView::file(".prettierignore"@, PRETTIERIGNORE@),
        FileStepView::file("src/index.ts"@, SERVER@),
        FileStepView::file("README.md"@, readme(name, command(tool))),
    ]
}

/// The arguments that install the runtime dependencies: yarn adds,
/// the others install.
pub open spec fn runtime_args(tool: Tool) -> Seq<Seq<char>> {
    match tool {
        Tool::Yarn => seq!["add"@, "@modelcontextprotocol/sdk"@, "zod"@],
        _ => seq!["install"@, "@modelcontextprotocol/sdk"@, "zod"@],
    }
}

/// The arguments that install the development dependencies: each
/// manager has its own spelling of the flag.
pub open spec fn development_args(tool: Tool) -> Seq<Seq<char>> {
    match tool {
        Tool::Yarn => seq!["add"@, "--dev"@, "@types/node"@, "typescript"@],
        Tool::Pnpm => seq!["install"@, "-D"@, "@types/node"@, "typescript"@],
        _ => seq!["install"@, "--save-dev"@, "@types/node"@, "typescript"@],
    }
}

/// The call that installs the runtime dependencies.
pub open spec fn install_runtime(tool: Tool) -> InvocationView {
    InvocationView {
        announce: seq![
            "📦 Installing dependencies with "@ + command(tool) + "..."@,
            "Installing runtime dependencies..."@,
        ],
        program: command(tool),
        args: runtime_args(tool),
        success: Seq::empty(),
        complaint: "⚠️ Warning: Failed to install runtime dependencies"@,
        remedy: "Please run '"@ + command(tool) + " install @modelcontextprotocol/sdk zod' manually"@,
        closing_clean: Seq::empty(),
        closing_warned: Seq::empty(),
    }
}

/// The call that installs the development dependencies. It closes the
/// stage: with a success line if both calls went well, with a warning
/// if either failed.
pub open spec fn install_development(tool: Tool) -> InvocationView {
    InvocationView {
        announce: seq!["Installing development dependencies..."@],
        program: command(tool),
        args: development_args(tool),
        success: Seq::empty(),
        complaint: "⚠️ Warning: Failed to install development dependencies"@,
        remedy: "Please run '"@ + command(tool)
            + " install --save-dev @types/node typescript' manually"@,
        closing_clean: seq![
            LineView { stream: Stream::Stdout, text: "✅ Dependencies installed successfully"@ },
        ],
        closing_warned: seq![
            LineView {
                stream: Stream::Stderr,
                text: "⚠️ Some dependencies may not have been installed properly."@,
            },
            LineView {
                stream: Stream::Stderr,
                text: "Please check the output above and install any missing dependencies manually."@,
            },
        ],
    }
}

/// The name under which a tool is invoked.
pub fn command_name(tool: &Tool) -> (name: &'static str)
    ensures
        name@ == command(*tool),
{
    match tool {
        Tool::Pnpm => "pnpm",
        Tool::Yarn => "yarn",
        Tool::Npm => "npm",
        _ => "npm",
    }
}

/// The generator of a TypeScript project.
#[derive(Debug)]
pub struct TypeScriptGenerator {
    project_name: String,
    tool: Tool,
}

impl TypeScriptGenerator {
    /// The path of the project directory: the project name, taken as a
    /// relative path as it is.
    pub fn project_path(&self) -> (path: &str)
        ensures
            path@ == self.name(),
    {
        self.project_name.as_str()
    }

    fn create_package_json(&self) -> (step: FileStep)
        ensures
            step@ == FileStepView::file("package.json"@, package_json(self.name())),
    {
        let name = self.project_name.as_str();
        let mut text = String::from_str(PACKAGE_0);
        text.append(name);
        text.append(PACKAGE_1);
        text.append(name);
        text.append(PACKAGE_2);
        FileStep::file("package.json", text)
    }

    fn create_tsconfig_json(&self) -> (step: FileStep)
        ensures
            step@ == FileStepView::file("tsconfig.json"@, TSCONFIG@),
    {
        FileStep::file("tsconfig.json", String::from_str(TSCONFIG))
    }

    fn create_gitignore(&self) -> (step: FileStep)
        ensures
            step@ == FileStepView::file(".gitignore"@, GITIGNORE@),
    {
        FileStep::file(".gitignore", String::from_str(GITIGNORE))
    }

    /// The formatter's configuration and its ignore list.
    fn create_prettier_config(&self) -> (steps: (FileStep, FileStep))
        ensures
            steps.0@ == FileStepView::file(".prettierrc"@, PRETTIERRC@),
            steps.1@ == FileStepView::file(".prettierignore"@, PRETTIERIGNORE@),
    {
        (
            FileStep::file(".prettierrc", String::from_str(PRETTIERRC)),
            FileStep::file(".prettierignore", String::from_str(PRETTIERIGNORE)),
        )
    }

    fn create_server_file(&self) -> (step: FileStep)
        ensures
            step@ == FileStepView::file("src/index.ts"@, SERVER@),
    {
        FileStep::file("src/index.ts", String::from_str(SERVER))
    }

    fn create_readme(&self) -> (step: FileStep)
        ensures
            step@ == FileStepView::file(
                "README.md"@,
                readme(self.name(), command(self.chosen_tool())),
            ),
    {
        let name = self.project_name.as_str();
        let manager = command_name(&self.tool);
        let mut text = String::from_str(README_0);
        text.append(name);
        text.append(README_1);
        text.append(manager);
        text.append(README_2);
        text.append(manager);
        text.append(README_3);
        text.append(manager);
        text.append(README_4);
        text.append(manager);
        text.append(README_5);
        text.append(name);
        text.append(README_6);
        text.append(name);
        text.append(README_7);
        FileStep::file("README.md", text)
    }

    /// The call that installs the runtime dependencies.
    fn install_runtime_call(&self) -> (call: Invocation)
        ensures
            call@ == install_runtime(self.chosen_tool()),
    {
        let cmd = command_name(&self.tool);
        let mut headline = String::from_str("📦 Installing dependencies with ");
        headline.append(cmd);
        headline.append("...");
        let mut announce: Vec<String> = Vec::new();
        push_text(&mut announce, headline.as_str());
        push_text(&mut announce, "Installing runtime dependencies...");
        let mut args: Vec<String> = Vec::new();
        match self.tool {
            Tool::Yarn => {
                push_text(&mut args, "add");
            },
            _ => {
                push_text(&mut args, "install");
            },
        }
        push_text(&mut args, "@modelcontextprotocol/sdk");
        push_text(&mut args, "zod");
        let mut remedy = String::from_str("Please run '");
        remedy.append(cmd);
        remedy.append(" install @modelcontextprotocol/sdk zod' manually");
        let call = Invocation {
            announce,
            program: String::from_str(cmd),
            args,
            success: Vec::new(),
            complaint: String::from_str("⚠️ Warning: Failed to install runtime dependencies"),
            remedy,
            closing_clean: Vec::new(),
            closing_warned: Vec::new(),
        };
        assert(call@ =~~= install_runtime(self.chosen_tool()));
        call
    }

    /// The call that installs the development dependencies.
    fn install_development_call(&self) -> (call: Invocation)
        ensures
            call@ == install_development(self.chosen_tool()),
    {
        let cmd = command_name(&self.tool);
        let mut announce: Vec<String> = Vec::new();
        push_text(&mut announce, "Installing development dependencies...");
        let mut args: Vec<String> = Vec::new();
        match self.tool {
            Tool::Yarn => {
                push_text(&mut args, "add");
                push_text(&mut args, "--dev");
            },
            Tool::Pnpm => {
                push_text(&mut args, "install");
                push_text(&mut args, "-D");
            },
            _ => {
                push_text(&mut args, "install");
                push_text(&mut args, "--save-dev");
            },
        }
        push_text(&mut args, "@types/node");
        push_text(&mut args, "typescript");
        let mut remedy = String::from_str("Please run '");
        remedy.append(cmd);
        remedy.append(" install --save-dev @types/node typescript' manually");
        let mut closing_clean: Vec<Line> = Vec::new();
        push_line(&mut closing_clean, Stream::Stdout, "✅ Dependencies installed successfully");
        let mut closing_warned: Vec<Line> = Vec::new();
        push_line(
            &mut closing_warned,
            Stream::Stderr,
            "⚠️ Some dependencies may not have been installed properly.",
        );
        push_line(
            &mut closing_warned,
            Stream::Stderr,
            "Please check the output above and install any missing dependencies manually.",
        );
        let call = Invocation {
            announce,
            program: String::from_str(cmd),
            args,
            success: Vec::new(),
            complaint: String::from_str("⚠️ Warning: Failed to install development dependencies"),
            remedy,
            closing_clean,
            closing_warned,
        };
        assert(call@ =~~= install_development(self.chosen_tool()));
        call
    }
}

impl Generator for TypeScriptGenerator {
    closed spec fn name(&self) -> Seq<char> {
        self.project_name@
    }

    closed spec fn chosen_tool(&self) -> Tool {
        self.tool
    }

    open spec fn directory_steps(&self) -> Seq<FileStepView> {
        directories(self.name())
    }

    open spec fn file_steps(&self) -> Seq<FileStepView> {
        files(self.name(), self.chosen_tool())
    }

    open spec fn package_manager_calls(&self) -> Seq<InvocationView> {
        seq![install_runtime(self.chosen_tool()), install_development(self.chosen_tool())]
    }

    fn new(project_name: &str, tool: &Tool) -> (generator: Self) {
        TypeScriptGenerator { project_name: String::from_str(project_name), tool: *tool }
    }

    fn generate(&self) -> (plan: Vec<Step>) {
        assemble(
            self.create_directories(),
            self.create_files(),
            self.init_package_manager(),
            self.init_git(),
        )
    }

    fn create_directories(&self) -> (steps: Vec<FileStep>) {
        let mut steps: Vec<FileStep> = Vec::new();
        steps.push(FileStep::root(self.project_path()));
        steps.push(FileStep::directory("src"));
        steps.push(FileStep::directory("build"));
        steps
    }

    fn create_files(&self) -> (steps: Vec<FileStep>) {
        let mut steps: Vec<FileStep> = Vec::new();
        steps.push(self.create_package_json());
        steps.push(self.create_tsconfig_json());
        steps.push(self.create_gitignore());
        let (config, ignore) = self.create_prettier_config();
        steps.push(config);
        steps.push(ignore);
        steps.push(self.create_server_file());
        steps.push(self.create_readme());
        steps
    }

    fn init_package_manager(&self) -> (calls: Vec<Invocation>) {
        let mut calls: Vec<Invocation> = Vec::new();
        calls.push(self.install_runtime_call());
        calls.push(self.install_development_call());
        calls
    }

    fn init_git(&self) -> (call: Invocation) {
        git_init_call()
    }
}

} // verus!
