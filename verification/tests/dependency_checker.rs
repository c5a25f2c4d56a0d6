use mcpc::utils::dependency_checker::{
    check_dependencies, missing_dependencies, Dependency, Environment, Requirement,
};
use mcpc::{Language, Tool};

fn bare() -> Environment {
    Environment {
        git: false,
        python: false,
        python3: false,
        uv: false,
        node: false,
        pnpm: false,
        yarn: false,
        npm: false,
    }
}

fn complete() -> Environment {
    Environment {
        git: true,
        python: true,
        python3: true,
        uv: true,
        node: true,
        pnpm: true,
        yarn: true,
        npm: true,
    }
}

fn names(list: &[Dependency]) -> Vec<String> {
    list.iter().map(|d| d.name.clone()).collect()
}

fn allowed(language: &Language, tool: &Tool) -> Vec<&'static str> {
    let mut list = vec!["Git"];
    match language {
        Language::Py | Language::Python => {
            list.push("Python 3.10+");
            if *tool == Tool::Uv {
                list.push("uv");
            }
        }
        Language::Ts | Language::Typescript => {
            list.push("Node.js 18+");
            match tool {
                Tool::Pnpm => list.push("pnpm"),
                Tool::Yarn => list.push("yarn"),
                Tool::Npm => list.push("npm"),
                Tool::Uv => {}
            }
        }
    }
    list
}

const LANGUAGES: [Language; 4] =
    [Language::Py, Language::Python, Language::Ts, Language::Typescript];
const TOOLS: [Tool; 4] = [Tool::Uv, Tool::Pnpm, Tool::Yarn, Tool::Npm];

#[test]
fn complete_host_misses_nothing() {
    for language in LANGUAGES {
        for tool in TOOLS {
            assert!(missing_dependencies(&language, &tool, &complete()).is_ok());
        }
    }
}

#[test]
fn bare_host_misses_everything_in_check_order() {
    for language in LANGUAGES {
        for tool in TOOLS {
            let missing = missing_dependencies(&language, &tool, &bare()).unwrap_err();
            assert_eq!(names(&missing), allowed(&language, &tool));
        }
    }
}

#[test]
fn typescript_with_pnpm_on_a_bare_host() {
    let missing = missing_dependencies(&Language::Typescript, &Tool::Pnpm, &bare()).unwrap_err();
    assert_eq!(missing.len(), 3);
    assert_eq!(missing[0].name, "Git");
    assert_eq!(missing[0].install_instructions.as_deref(), Some("https://git-scm.com/downloads"));
    assert_eq!(missing[1].name, "Node.js 18+");
    assert_eq!(missing[1].install_instructions.as_deref(), Some("https://nodejs.org/"));
    assert_eq!(missing[2].name, "pnpm");
    assert_eq!(missing[2].install_instructions.as_deref(), Some("npm install -g pnpm"));
}

#[test]
fn python_with_uv_on_a_bare_host() {
    let missing = missing_dependencies(&Language::Py, &Tool::Uv, &bare()).unwrap_err();
    assert_eq!(missing.len(), 3);
    assert_eq!(missing[1].name, "Python 3.10+");
    assert_eq!(
        missing[1].install_instructions.as_deref(),
        Some("https://www.python.org/downloads/")
    );
    assert_eq!(missing[2].name, "uv");
    assert_eq!(missing[2].install_instructions.as_deref(), Some("pip install uv"));
}

#[test]
fn yarn_and_npm_entries() {
    let missing = missing_dependencies(&Language::Ts, &Tool::Yarn, &bare()).unwrap_err();
    assert_eq!(missing[2].name, "yarn");
    assert_eq!(missing[2].install_instructions.as_deref(), Some("npm install -g yarn"));
    let missing = missing_dependencies(&Language::Ts, &Tool::Npm, &bare()).unwrap_err();
    assert_eq!(missing[2].name, "npm");
    assert_eq!(
        missing[2].install_instructions.as_deref(),
        Some("It comes with Node.js, please install Node.js")
    );
}

#[test]
fn either_interpreter_name_satisfies_python() {
    let mut env = complete();
    env.python = false;
    assert!(missing_dependencies(&Language::Python, &Tool::Uv, &env).is_ok());
    let mut env = complete();
    env.python3 = false;
    assert!(missing_dependencies(&Language::Python, &Tool::Uv, &env).is_ok());
    let mut env = complete();
    env.python = false;
    env.python3 = false;
    let missing = missing_dependencies(&Language::Python, &Tool::Uv, &env).unwrap_err();
    assert_eq!(names(&missing), vec!["Python 3.10+"]);
}

#[test]
fn one_missing_executable_is_reported_alone() {
    let mut env = complete();
    env.git = false;
    let missing = missing_dependencies(&Language::Typescript, &Tool::Yarn, &env).unwrap_err();
    assert_eq!(names(&missing), vec!["Git"]);

    let mut env = complete();
    env.node = false;
    let missing = missing_dependencies(&Language::Typescript, &Tool::Yarn, &env).unwrap_err();
    assert_eq!(names(&missing), vec!["Node.js 18+"]);

    let mut env = complete();
    env.yarn = false;
    let missing = missing_dependencies(&Language::Typescript, &Tool::Yarn, &env).unwrap_err();
    assert_eq!(names(&missing), vec!["yarn"]);

    let mut env = complete();
    env.uv = false;
    let missing = missing_dependencies(&Language::Python, &Tool::Uv, &env).unwrap_err();
    assert_eq!(names(&missing), vec!["uv"]);
}

#[test]
fn executables_that_are_not_required_are_not_reported() {
    let mut env = complete();
    env.pnpm = false;
    env.npm = false;
    env.uv = false;
    env.python = false;
    env.python3 = false;
    assert!(missing_dependencies(&Language::Typescript, &Tool::Yarn, &env).is_ok());
}

#[test]
fn tool_of_the_other_language_is_not_checked() {
    let mut env = complete();
    env.uv = false;
    assert!(missing_dependencies(&Language::Typescript, &Tool::Uv, &env).is_ok());
    let missing = missing_dependencies(&Language::Typescript, &Tool::Uv, &bare()).unwrap_err();
    assert_eq!(names(&missing), vec!["Git", "Node.js 18+"]);

    let mut env = complete();
    env.pnpm = false;
    assert!(missing_dependencies(&Language::Python, &Tool::Pnpm, &env).is_ok());
    let missing = missing_dependencies(&Language::Python, &Tool::Pnpm, &bare()).unwrap_err();
    assert_eq!(names(&missing), vec!["Git", "Python 3.10+"]);
}

#[test]
fn requirement_entries_carry_instructions() {
    let entry = Requirement::Node.dependency();
    assert_eq!(entry.name, "Node.js 18+");
    assert_eq!(entry.install_instructions.as_deref(), Some("https://nodejs.org/"));
}

#[test]
fn host_probe_reports_only_listed_names_in_check_order() {
    for language in LANGUAGES {
        for tool in TOOLS {
            if let Err(missing) = check_dependencies(&language, &tool) {
                assert!(!missing.is_empty());
                let listed = allowed(&language, &tool);
                let mut at = 0;
                for name in names(&missing) {
                    let found = listed[at..].iter().position(|l| *l == name);
                    assert!(found.is_some(), "{} is not listed for this pair", name);
                    at += found.unwrap() + 1;
                }
                for entry in &missing {
                    assert!(entry.install_instructions.is_some());
                }
            }
        }
    }
}

#[test]
fn executables_are_looked_for_under_their_usual_names() {
    assert_eq!(Requirement::Git.executable_names(), vec!["git"]);
    assert_eq!(Requirement::Python.executable_names(), vec!["python", "python3"]);
    assert_eq!(Requirement::Uv.executable_names(), vec!["uv"]);
    assert_eq!(Requirement::Node.executable_names(), vec!["node"]);
    assert_eq!(Requirement::Pnpm.executable_names(), vec!["pnpm"]);
    assert_eq!(Requirement::Yarn.executable_names(), vec!["yarn"]);
    assert_eq!(Requirement::Npm.executable_names(), vec!["npm"]);
}

#[test]
fn host_is_put_together_one_requirement_at_a_time() {
    assert_eq!(Environment::bare(), bare());
    let env = Environment::bare().with(Requirement::Git, true).with(Requirement::Python, true);
    assert!(env.git);
    assert!(env.python || env.python3);
    assert!(!env.uv);
    let missing = missing_dependencies(&Language::Python, &Tool::Uv, &env).unwrap_err();
    assert_eq!(names(&missing), vec!["uv"]);
    let env = env.with(Requirement::Python, false);
    let missing = missing_dependencies(&Language::Python, &Tool::Uv, &env).unwrap_err();
    assert_eq!(names(&missing), vec!["Python 3.10+", "uv"]);
}

#[test]
fn answers_are_put_down_under_the_name_that_was_tried() {
    let env = Environment::bare().answer(Requirement::Git, 0, true);
    assert_eq!(env, Environment { git: true, ..bare() });

    let env = bare().answer(Requirement::Python, 0, false).answer(Requirement::Python, 1, true);
    assert_eq!(env, Environment { python3: true, ..bare() });
    assert!(missing_dependencies(&Language::Python, &Tool::Npm, &env).is_err());
    let env = env.answer(Requirement::Git, 0, true);
    assert!(missing_dependencies(&Language::Python, &Tool::Npm, &env).is_ok());

    let env = complete().answer(Requirement::Python, 0, false);
    assert_eq!(env, Environment { python: false, ..complete() });
    let env = complete().answer(Requirement::Yarn, 0, false);
    assert_eq!(env, Environment { yarn: false, ..complete() });
    let env = complete().answer(Requirement::Node, 0, false);
    assert_eq!(env, Environment { node: false, ..complete() });
    let env = complete().answer(Requirement::Uv, 0, false);
    assert_eq!(env, Environment { uv: false, ..complete() });
    let env = complete().answer(Requirement::Pnpm, 0, false);
    assert_eq!(env, Environment { pnpm: false, ..complete() });
    let env = complete().answer(Requirement::Npm, 0, false);
    assert_eq!(env, Environment { npm: false, ..complete() });
}
