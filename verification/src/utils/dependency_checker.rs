//! The preflight check: which of the executables a project needs are
//! missing from the host.

use crate::{views, Language, Tool};
use vstd::prelude::*;

verus! {

/// A missing executable, as it is reported to the user.
#[derive(Debug)]
pub struct Dependency {
    pub name: String,
    pub install_instructions: Option<String>,
}

/// The mathematical value of a [`Dependency`].
pub struct DependencyView {
    pub name: Seq<char>,
    pub install_instructions: Option<Seq<char>>,
}

impl View for Dependency {
    type V = DependencyView;

    open spec fn view(&self) -> DependencyView {
        DependencyView {
            name: self.name@,
            install_instructions: match self.install_instructions {
                Some(text) => Some(text@),
                None => None,
            },
        }
    }
}

/// Something a project needs from the host before it can be generated.
#[derive(Debug, Clone, Copy, PartialEq, Eq, Structural)]
pub enum Requirement {
    Git,
    Python,
    Uv,
    Node,
    Pnpm,
    Yarn,
    Npm,
}

/// Which executables resolve on the host. `python` and `python3` are the
/// two names under which a Python 3 interpreter is looked for.
#[derive(Debug, Clone, Copy, PartialEq, Eq, Structural)]
pub struct Environment {
    pub git: bool,
    pub python: bool,
    pub python3: bool,
    pub uv: bool,
    pub node: bool,
    pub pnpm: bool,
    pub yarn: bool,
    pub npm: bool,
}

impl Environment {
    /// Whether the host meets a requirement. A Python interpreter under
    /// either name will do.
    pub open spec fn provides(self, requirement: Requirement) -> bool {
        match requirement {
            Requirement::Git => self.git,
            Requirement::Python => self.python || self.python3,
            Requirement::Uv => self.uv,
            Requirement::Node => self.node,
            Requirement::Pnpm => self.pnpm,
            Requirement::Yarn => self.yarn,
            Requirement::Npm => self.npm,
        }
    }
}

impl Environment {
    /// A host on which nothing resolves.
    pub fn bare() -> (env: Environment)
        ensures
            forall|requirement: Requirement| !env.provides(requirement),
    {
        Environment {
            git: false,
            python: false,
            python3: false,
            uv: false,
            node: false,
            pnpm: false,
            yarn: false,
            npm: false,
        }
    }

    /// This host, but for one requirement, which it meets if `found`
    /// says so. A Python interpreter that was found is put down under
    /// its first name.
    pub fn with(self, requirement: Requirement, found: bool) -> (env: Environment)
        ensures
            env.provides(requirement) == found,
            forall|other: Requirement|
                other != requirement ==> env.provides(other) == self.provides(other),
    {
        let mut env = self;
        match requirement {
            Requirement::Git => {
                env.git = found;
            },
            Requirement::Python => {
                env.python = found;
                env.python3 = false;
            },
            Requirement::Uv => {
                env.uv = found;
            },
            Requirement::Node => {
                env.node = found;
            },
            Requirement::Pnpm => {
                env.pnpm = found;
            },
            Requirement::Yarn => {
                env.yarn = found;
            },
            Requirement::Npm => {
                env.npm = found;
            },
        }
        env
    }
}

impl Requirement {
    /// The name under which a requirement is reported.
    pub open spec fn name(self) -> Seq<char> {
        match self {
            Requirement::Git => "Git"@,
            Requirement::Python => "Python 3.10+"@,
            Requirement::Uv => "uv"@,
            Requirement::Node => "Node.js 18+"@,
            Requirement::Pnpm => "pnpm"@,
            Requirement::Yarn => "yarn"@,
            Requirement::Npm => "npm"@,
        }
    }

    /// How the user is told to install what is missing.
    pub open spec fn instructions(self) -> Seq<char> {
        match self {
            Requirement::Git => "https://git-scm.com/downloads"@,
            Requirement::Python => "https://www.python.org/downloads/"@,
            Requirement::Uv => "pip install uv"@,
            Requirement::Node => "https://nodejs.org/"@,
            Requirement::Pnpm => "npm install -g pnpm"@,
            Requirement::Yarn => "npm install -g yarn"@,
            Requirement::Npm => "It comes with Node.js, please install Node.js"@,
        }
    }

    /// The report entry of a requirement that is not met.
    pub open spec fn entry(self) -> DependencyView {
        DependencyView { name: self.name(), install_instructions: Some(self.instructions()) }
    }

    /// The names under which the executable of a requirement is looked
    /// for, in order. The first that resolves meets the requirement.
    pub open spec fn executables(self) -> Seq<Seq<char>> {
        match self {
            Requirement::Git => seq!["git"@],
            Requirement::Python => seq!["python"@, "python3"@],
            Requirement::Uv => seq!["uv"@],
            Requirement::Node => seq!["node"@],
            Requirement::Pnpm => seq!["pnpm"@],
            Requirement::Yarn => seq!["yarn"@],
            Requirement::Npm => seq!["npm"@],
        }
    }

    /// The names under which the executable of a requirement is looked
    /// for, in order.
    pub fn executable_names(&self) -> (names: Vec<&'static str>)
        ensures
            views(names@) == self.executables(),
    {
        let mut names: Vec<&'static str> = Vec::new();
        match self {
            Requirement::Git => {
                names.push("git");
            },
            Requirement::Python => {
                names.push("python");
                names.push("python3");
            },
            Requirement::Uv => {
                names.push("uv");
            },
            Requirement::Node => {
                names.push("node");
            },
            Requirement::Pnpm => {
                names.push("pnpm");
            },
            Requirement::Yarn => {
                names.push("yarn");
            },
            Requirement::Npm => {
                names.push("npm");
            },
        }
        names
    }

    /// The report entry of a requirement that is not met.
    pub fn dependency(&self) -> (dependency: Dependency)
        ensures
            dependency@ == self.entry(),
    {
        let (name, instructions) = match self {
            Requirement::Git => ("Git", "https://git-scm.com/downloads"),
            Requirement::Python => ("Python 3.10+", "https://www.python.org/downloads/"),
            Requirement::Uv => ("uv", "pip install uv"),
            Requirement::Node => ("Node.js 18+", "https://nodejs.org/"),
            Requirement::Pnpm => ("pnpm", "npm install -g pnpm"),
            Requirement::Yarn => ("yarn", "npm install -g yarn"),
            Requirement::Npm => ("npm", "It comes with Node.js, please install Node.js"),
        };
        Dependency {
            name: String::from_str(name),
            install_instructions: Some(String::from_str(instructions)),
        }
    }
}

/// The language runtime that a language requires.
pub open spec fn runtime(language: Language) -> Requirement {
    if language.is_python() {
        Requirement::Python
    } else {
        Requirement::Node
    }
}

/// The package manager that is checked for a language and a tool, if
/// any. Python checks for `uv` alone; TypeScript for its three package
/// managers. A tool of the other language is accepted unchecked.
pub open spec fn manager(language: Language, tool: Tool) -> Option<Requirement> {
    if language.is_python() {
        match tool {
            Tool::Uv => Some(Requirement::Uv),
            _ => None,
        }
    } else {
        match tool {
            Tool::Pnpm => Some(Requirement::Pnpm),
            Tool::Yarn => Some(Requirement::Yarn),
            Tool::Npm => Some(Requirement::Npm),
            Tool::Uv => None,
        }
    }
}

/// Everything that is checked for a language and a tool, in the order
/// of the checks: version control, the language runtime, the tool.
pub open spec fn required(language: Language, tool: Tool) -> Seq<Requirement> {
    match manager(language, tool) {
        Some(m) => seq![Requirement::Git, runtime(language), m],
        None => seq![Requirement::Git, runtime(language)],
    }
}

/// What one check contributes to the report: the requirement if the
/// host does not meet it, nothing if it does.
pub open spec fn absent(requirement: Requirement, env: Environment) -> Seq<Requirement> {
    if env.provides(requirement) {
        Seq::empty()
    } else {
        seq![requirement]
    }
}

/// The requirements that a host does not meet, in the order of the
/// checks. Each check is made on its own.
pub open spec fn missing(language: Language, tool: Tool, env: Environment) -> Seq<Requirement> {
    absent(Requirement::Git, env) + absent(runtime(language), env) + match manager(
        language,
        tool,
    ) {
        Some(m) => absent(m, env),
        None => Seq::empty(),
    }
}

/// What the check reports of a host: success if nothing is missing,
/// else the entry of each missing requirement, in the order of the
/// checks.
pub open spec fn verdict(language: Language, tool: Tool, env: Environment) -> Result<
    (),
    Seq<DependencyView>,
> {
    let lacking = missing(language, tool, env);
    if lacking.len() == 0 {
        Ok(())
    } else {
        Err(lacking.map_values(|r: Requirement| r.entry()))
    }
}

/// The view of what the check returned.
pub open spec fn checked_view(checked: Result<(), Vec<Dependency>>) -> Result<
    (),
    Seq<DependencyView>,
> {
    match checked {
        Ok(_) => Ok(()),
        Err(list) => Err(views(list@)),
    }
}

/// Whether an executable of the given name resolves on this host.
///
/// Calls `which::which`, which looks the name up in the directories of
/// `PATH`, and says only whether it found an executable. The answer
/// depends on the host, so nothing is claimed of it.
#[verifier::external_body]
fn resolves(name: &str) -> (found: bool) {
    which::which(name).is_ok()
}

/// Adds the entry of `requirement` to `list` unless the host provides
/// it.
fn note(list: &mut Vec<Dependency>, requirement: Requirement, provided: bool)
    ensures
        views(final(list)@) == views(old(list)@) + (if provided {
            Seq::empty()
        } else {
            seq![requirement.entry()]
        }),
{
    if !provided {
        let dependency = requirement.dependency();
        list.push(dependency);
    } else {
    }
}

/// Whether a host provides a requirement.
fn provided(env: &Environment, requirement: Requirement) -> (found: bool)
    ensures
        found == env.provides(requirement),
{
    match requirement {
        Requirement::Git => env.git,
        Requirement::Python => env.python || env.python3,
        Requirement::Uv => env.uv,
        Requirement::Node => env.node,
        Requirement::Pnpm => env.pnpm,
        Requirement::Yarn => env.yarn,
        Requirement::Npm => env.npm,
    }
}

/// The language runtime that a language requires.
fn runtime_of(language: &Language) -> (requirement: Requirement)
    ensures
        requirement == runtime(*language),
{
    match language {
        Language::Python | Language::Py => Requirement::Python,
        Language::Typescript | Language::Ts => Requirement::Node,
    }
}

/// The package manager that is checked for a language and a tool.
fn manager_of(language: &Language, tool: &Tool) -> (requirement: Option<Requirement>)
    ensures
        requirement == manager(*language, *tool),
{
    match language {
        Language::Python | Language::Py => match tool {
            Tool::Uv => Some(Requirement::Uv),
            _ => None,
        },
        Language::Typescript | Language::Ts => match tool {
            Tool::Pnpm => Some(Requirement::Pnpm),
            Tool::Yarn => Some(Requirement::Yarn),
            Tool::Npm => Some(Requirement::Npm),
            _ => None,
        },
    }
}

/// Reports what a host, given by the executables that resolve on it,
/// is missing for a language and a tool.
///
/// Returns `Ok` exactly when the host meets every requirement of the
/// pair; otherwise every missing dependency, version control first,
/// then the language runtime, then the tool.
pub fn missing_dependencies(language: &Language, tool: &Tool, env: &Environment) -> (result:
    Result<(), Vec<Dependency>>)
    ensures
        checked_view(result) == verdict(*language, *tool, *env),
{
    let mut list: Vec<Dependency> = Vec::new();
    note(&mut list, Requirement::Git, provided(env, Requirement::Git));
    let runtime = runtime_of(language);
    note(&mut list, runtime, provided(env, runtime));
    match manager_of(language, tool) {
        Some(m) => {
            note(&mut list, m, provided(env, m));
        },
        None => {},
    }
    let ghost wanted = missing(*language, *tool, *env);
    assert(views(list@) =~= wanted.map_values(|r: Requirement| r.entry()));
    if list.is_empty() {
        Ok(())
    } else {
        Err(list)
    }
}

/// Looks up the executable of one requirement on this host, trying its
/// names in order up to the first that resolves, and puts down in `env`
/// what it found. What resolves is a fact of the host.
fn probe(env: Environment, requirement: Requirement) -> (probed: Environment)
    ensures
        exists|answers: Seq<bool>|
            stops_at_first(requirement, answers) && probed == #[trigger] env.tried(
                requirement,
                answers,
            ),
        forall|other: Requirement|
            other != requirement ==> probed.provides(other) == env.provides(other),
{
    let names = requirement.executable_names();
    assert(names@.len() == views(names@).len());
    let ghost mut answers: Seq<bool> = Seq::empty();
    let mut probed = env;
    let mut i: usize = 0;
    while i < names.len()
        invariant
            i <= names.len(),
            names@.len() == requirement.executables().len(),
            names@.len() >= 1,
            answers.len() == i,
            forall|k: int| 0 <= k < answers.len() ==> !answers[k],
            probed == env.tried(requirement, answers),
        decreases names.len() - i,
    {
        let found = resolves(names[i]);
        probed = probed.answer(requirement, i, found);
        proof {
            let ghost before = answers;
            answers = answers.push(found);
            assert(answers.drop_last() =~= before);
            assert(probed == env.tried(requirement, answers));
        }
        if found {
            proof {
                assert(stops_at_first(requirement, answers));
                assert forall|other: Requirement| other != requirement implies probed.provides(
                    other,
                ) == env.provides(other) by {
                    tried_leaves_others(env, requirement, answers, other);
                }
            }
            return probed;
        }
        i += 1;
    }
    proof {
        assert(stops_at_first(requirement, answers));
        assert forall|other: Requirement| other != requirement implies probed.provides(other)
            == env.provides(other) by {
            tried_leaves_others(env, requirement, answers, other);
        }
    }
    probed
}

/// Check if all required dependencies are installed based on the
/// language and tool.
///
/// Probes this host for version control, then for the language
/// runtime, then for the tool, each under the names of
/// [`Requirement::executables`], and reports as
/// [`missing_dependencies`] does of what the probes found. Which
/// executables resolve is a fact of the host, so the contract says that
/// the report is that of some host.
pub fn check_dependencies(language: &Language, tool: &Tool) -> (result: Result<
    (),
    Vec<Dependency>,
>)
    ensures
        exists|env: Environment| checked_view(result) == verdict(*language, *tool, env),
{
    let mut env = Environment::bare();
    env = probe(env, Requirement::Git);
    env = probe(env, runtime_of(language));
    match manager_of(language, tool) {
        Some(m) => {
            env = probe(env, m);
        },
        None => {},
    }
    missing_dependencies(language, tool, &env)
}

/// A requirement is reported exactly when it is checked for the pair
/// and the host does not provide it: nothing outside the list of the
/// pair is ever reported, and each check is made on its own.
pub proof fn reported_iff_required_and_absent(
    language: Language,
    tool: Tool,
    env: Environment,
    requirement: Requirement,
)
    ensures
        missing(language, tool, env).contains(requirement) <==> required(language, tool).contains(
            requirement,
        ) && !env.provides(requirement),
{
    let found = missing(language, tool, env);
    let git = absent(Requirement::Git, env);
    let run = absent(runtime(language), env);
    if required(language, tool).contains(requirement) && !env.provides(requirement) {
        if requirement == Requirement::Git {
            assert(found[0] == requirement);
        } else if requirement == runtime(language) {
            assert(found[git.len() as int] == requirement);
        } else {
            assert(found[(git.len() + run.len()) as int] == requirement);
        }
    }
}

/// Every reported name is the name of a requirement of the pair.
pub proof fn reported_names_are_listed(language: Language, tool: Tool, env: Environment, i: int)
    requires
        0 <= i < missing(language, tool, env).len(),
    ensures
        exists|j: int|
            0 <= j < required(language, tool).len() && missing(language, tool, env)[i].name()
                == #[trigger] required(language, tool)[j].name(),
{
    let requirement = missing(language, tool, env)[i];
    reported_iff_required_and_absent(language, tool, env, requirement);
    let j = choose|j: int|
        0 <= j < required(language, tool).len() && required(language, tool)[j] == requirement;
    assert(required(language, tool)[j].name() == requirement.name());
}

/// Nothing is reported exactly on a host that provides everything the
/// pair requires.
pub proof fn nothing_reported_iff_all_present(language: Language, tool: Tool, env: Environment)
    ensures
        verdict(language, tool, env) is Ok <==> (forall|i: int|
            0 <= i < required(language, tool).len() ==> env.provides(
                #[trigger] required(language, tool)[i],
            )),
{
}

/// On a host that provides everything the pair requires but one
/// requirement, that requirement is reported and nothing else.
pub proof fn one_reported_when_one_absent(
    language: Language,
    tool: Tool,
    env: Environment,
    requirement: Requirement,
)
    requires
        required(language, tool).contains(requirement),
        forall|i: int|
            0 <= i < required(language, tool).len() ==> (env.provides(
                #[trigger] required(language, tool)[i],
            ) <==> required(language, tool)[i] != requirement),
    ensures
        missing(language, tool, env) == seq![requirement],
        verdict(language, tool, env) == Err::<(), Seq<DependencyView>>(seq![requirement.entry()]),
{
    assert(missing(language, tool, env) =~= seq![requirement]);
    assert(seq![requirement].map_values(|r: Requirement| r.entry()) =~= seq![requirement.entry()]);
}

impl Environment {
    /// This host, but that the executable of `requirement` resolves
    /// under the name at `index` if `found` says so. Only a Python
    /// interpreter has a second name; for the others every index
    /// stands for the one name.
    pub open spec fn answered(self, requirement: Requirement, index: int, found: bool) -> Environment {
        match requirement {
            Requirement::Git => Environment { git: found, ..self },
            Requirement::Python => if index == 0 {
                Environment { python: found, ..self }
            } else {
                Environment { python3: found, ..self }
            },
            Requirement::Uv => Environment { uv: found, ..self },
            Requirement::Node => Environment { node: found, ..self },
            Requirement::Pnpm => Environment { pnpm: found, ..self },
            Requirement::Yarn => Environment { yarn: found, ..self },
            Requirement::Npm => Environment { npm: found, ..self },
        }
    }

    /// This host, once the names of the executable of `requirement`
    /// were looked up one after the other, from the first, with the
    /// given answers.
    pub open spec fn tried(self, requirement: Requirement, answers: Seq<bool>) -> Environment
        decreases answers.len(),
    {
        if answers.len() == 0 {
            self
        } else {
            self.tried(requirement, answers.drop_last()).answered(
                requirement,
                answers.len() - 1,
                answers.last(),
            )
        }
    }

    /// This host, but that the executable of `requirement` resolves
    /// under the name at `index` if `found` says so.
    pub fn answer(self, requirement: Requirement, index: usize, found: bool) -> (env: Environment)
        ensures
            env == self.answered(requirement, index as int, found),
    {
        let mut env = self;
        match requirement {
            Requirement::Git => {
                env.git = found;
            },
            Requirement::Python => {
                if index == 0 {
                    env.python = found;
                } else {
                    env.python3 = found;
                }
            },
            Requirement::Uv => {
                env.uv = found;
            },
            Requirement::Node => {
                env.node = found;
            },
            Requirement::Pnpm => {
                env.pnpm = found;
            },
            Requirement::Yarn => {
                env.yarn = found;
            },
            Requirement::Npm => {
                env.npm = found;
            },
        }
        env
    }
}

/// Whether answers are those of a lookup that tries the names of the
/// executable of `requirement` in order and stops at the first that
/// resolves: at least one name was tried, none but the last tried
/// resolved, and names were left untried only if the last tried did.
pub open spec fn stops_at_first(requirement: Requirement, answers: Seq<bool>) -> bool {
    &&& 1 <= answers.len() <= requirement.executables().len()
    &&& forall|i: int| 0 <= i < answers.len() - 1 ==> !answers[i]
    &&& answers.len() < requirement.executables().len() ==> answers.last()
}

/// Looking up the executable of one requirement leaves what is known
/// of every other requirement as it was.
pub proof fn tried_leaves_others(
    env: Environment,
    requirement: Requirement,
    answers: Seq<bool>,
    other: Requirement,
)
    requires
        other != requirement,
    ensures
        env.tried(requirement, answers).provides(other) == env.provides(other),
    decreases answers.len(),
{
    if answers.len() > 0 {
        tried_leaves_others(env, requirement, answers.drop_last(), other);
    }
}

/// After a lookup that stops at the first name that resolves, the host
/// meets the requirement exactly if the last name tried resolved.
pub proof fn tried_meets_iff_last_resolved(
    env: Environment,
    requirement: Requirement,
    answers: Seq<bool>,
)
    requires
        stops_at_first(requirement, answers),
    ensures
        env.tried(requirement, answers).provides(requirement) == answers.last(),
{
    reveal_with_fuel(Environment::tried, 3);
    if answers.len() == 2 {
        assert(answers.drop_last().len() == 1);
        assert(!answers[0]);
    }
}

} // verus!
