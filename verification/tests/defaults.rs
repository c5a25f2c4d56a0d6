use mcpc::{get_default_tool, Cli, Language, Tool};

#[test]
fn python_defaults_to_uv() {
    assert_eq!(get_default_tool(&Language::Python), Tool::Uv);
    assert_eq!(get_default_tool(&Language::Py), Tool::Uv);
}

#[test]
fn typescript_defaults_to_pnpm() {
    assert_eq!(get_default_tool(&Language::Typescript), Tool::Pnpm);
    assert_eq!(get_default_tool(&Language::Ts), Tool::Pnpm);
}

#[test]
fn default_tool_is_the_same_on_every_call() {
    for language in [Language::Py, Language::Python, Language::Ts, Language::Typescript] {
        assert_eq!(get_default_tool(&language), get_default_tool(&language));
    }
}

#[test]
fn named_tool_overrides_the_default() {
    let cli = Cli {
        project_name: "demo".to_string(),
        language: Language::Typescript,
        tool: Some(Tool::Yarn),
    };
    assert_eq!(cli.resolve_tool(), Tool::Yarn);
}

#[test]
fn unnamed_tool_falls_back_to_the_default() {
    let cli = Cli { project_name: "demo".to_string(), language: Language::Py, tool: None };
    assert_eq!(cli.resolve_tool(), Tool::Uv);
    let cli = Cli { project_name: "demo".to_string(), language: Language::Ts, tool: None };
    assert_eq!(cli.resolve_tool(), Tool::Pnpm);
}

#[test]
fn mismatched_tool_is_taken_as_it_is() {
    let cli = Cli {
        project_name: "demo".to_string(),
        language: Language::Python,
        tool: Some(Tool::Npm),
    };
    assert_eq!(cli.resolve_tool(), Tool::Npm);
}
