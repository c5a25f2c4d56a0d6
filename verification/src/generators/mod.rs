//! Generators: one per language, each planning the steps that create a
//! project.

pub mod plan;
pub mod python;
pub mod python_templates;
pub mod run;
pub mod typescript;
pub mod typescript_templates;

use crate::generators::plan::{
    assembled, staged, FileStep, FileStepView, Invocation, InvocationView, Step,
};
use crate::views;
use crate::Tool;
use vstd::prelude::*;

verus! {

/// The call that puts a new project under version control.
pub open spec fn git_init() -> InvocationView {
    InvocationView {
        announce: Seq::empty(),
        program: "git"@,
        args: seq!["init"@],
        success: Seq::empty(),
        complaint: "⚠️ Warning: Failed to initialize git repository"@,
        remedy: "Please run 'git init' manually in the project directory"@,
        closing_clean: Seq::empty(),
        closing_warned: Seq::empty(),
    }
}

/// The call that puts a new project under version control.
pub fn git_init_call() -> (call: Invocation)
    ensures
        call@ == git_init(),
{
    let mut args: Vec<String> = Vec::new();
    args.push(String::from_str("init"));
    let call = Invocation {
        announce: Vec::new(),
        program: String::from_str("git"),
        args,
        success: Vec::new(),
        complaint: String::from_str("⚠️ Warning: Failed to initialize git repository"),
        remedy: String::from_str("Please run 'git init' manually in the project directory"),
        closing_clean: Vec::new(),
        closing_warned: Vec::new(),
    };
    assert(call@ =~~= git_init());
    call
}

/// Trait for project generators.
///
/// A generator plans; it touches nothing. Each stage of a run is the
/// list of its steps, and `generate` is the whole plan: the stages in
/// their fixed order.
pub trait Generator: Sized {
    /// The name of the project.
    spec fn name(&self) -> Seq<char>;

    /// The tool the project is set up with.
    spec fn chosen_tool(&self) -> Tool;

    /// The steps that create the project's directories.
    spec fn directory_steps(&self) -> Seq<FileStepView>;

    /// The steps that write the project's files.
    spec fn file_steps(&self) -> Seq<FileStepView>;

    /// The calls of the package manager.
    spec fn package_manager_calls(&self) -> Seq<InvocationView>;

    /// Creates a new generator for the specified project.
    fn new(project_name: &str, tool: &Tool) -> (generator: Self)
        ensures
            generator.name() == project_name@,
            generator.chosen_tool() == *tool,
    ;

    /// Plans the project scaffold: directories, files, the package
    /// manager, version control, in this order.
    fn generate(&self) -> (plan: Vec<Step>)
        ensures
            views(plan@) == assembled(
                self.directory_steps(),
                self.file_steps(),
                self.package_manager_calls(),
                git_init(),
            ),
            staged(views(plan@)),
    ;

    /// Initialize git repository.
    fn init_git(&self) -> (call: Invocation)
        ensures
            call@ == git_init(),
    ;

    /// Create project directories.
    fn create_directories(&self) -> (steps: Vec<FileStep>)
        ensures
            views(steps@) == self.directory_steps(),
    ;

    /// Create project files.
    fn create_files(&self) -> (steps: Vec<FileStep>)
        ensures
            views(steps@) == self.file_steps(),
    ;

    /// Initialize package manager.
    fn init_package_manager(&self) -> (calls: Vec<Invocation>)
        ensures
            views(calls@) == self.package_manager_calls(),
    ;
}

} // verus!
