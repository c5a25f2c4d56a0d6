//! Scaffolding of starter projects for Model Context Protocol servers.

use vstd::prelude::*;

pub mod generators;
pub mod orchestrator;
pub mod utils;

verus! {

/// The language a project is scaffolded in. `Py` and `Ts` are short
/// aliases of `Python` and `Typescript`.
#[derive(Debug, Clone, Copy, PartialEq, Eq, Structural)]
pub enum Language {
    Py,
    Python,
    Ts,
    Typescript,
}

/// The package manager that materialises a project's dependencies.
#[derive(Debug, Clone, Copy, PartialEq, Eq, Structural)]
pub enum Tool {
    Uv,
    Pnpm,
    Yarn,
    Npm,
}

/// The arguments of one invocation.
#[derive(Debug)]
pub struct Cli {
    /// Name of the project.
    pub project_name: String,
    /// Programming language to use.
    pub language: Language,
    /// Package manager tool to use; the default of the language if none
    /// is named.
    pub tool: Option<Tool>,
}

impl Language {
    /// Whether the language is Python, under either of its two names.
    pub open spec fn is_python(self) -> bool {
        self == Language::Py || self == Language::Python
    }
}

/// The tool used for a language when the caller names none.
pub open spec fn default_tool(language: Language) -> Tool {
    if language.is_python() {
        Tool::Uv
    } else {
        Tool::Pnpm
    }
}

/// Get the default tool for a language.
pub fn get_default_tool(language: &Language) -> (tool: Tool)
    ensures
        tool == default_tool(*language),
{
    match language {
        Language::Python | Language::Py => Tool::Uv,
        Language::Typescript | Language::Ts => Tool::Pnpm,
    }
}

/// The views of the items of a sequence, in order.
pub open spec fn views<T: View>(items: Seq<T>) -> Seq<T::V> {
    items.map_values(|item: T| item@)
}

} // verus!
