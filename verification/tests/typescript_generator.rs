use mcpc::generators::plan::{Operation, Step, Stream};
use mcpc::generators::typescript::{command_name, TypeScriptGenerator};
use mcpc::generators::Generator;
use mcpc::Tool;

#[test]
fn typescript_project_has_a_source_tree_and_a_build_directory() {
    let generator = TypeScriptGenerator::new("demo-ts", &Tool::Npm);
    let steps = generator.create_directories();
    assert_eq!(steps.len(), 3);
    assert_eq!(steps[0].operation, Operation::CreateRoot);
    assert_eq!(steps[0].path, "");
    assert_eq!(steps[0].context, "Failed to create project directory: demo-ts");
    assert_eq!(steps[1].operation, Operation::CreateDirectory);
    assert_eq!(steps[1].path, "src");
    assert_eq!(steps[1].context, "Failed to create directory: src");
    assert_eq!(steps[2].operation, Operation::CreateDirectory);
    assert_eq!(steps[2].path, "build");
    assert_eq!(steps[2].context, "Failed to create directory: build");
}

#[test]
fn typescript_project_files() {
    let generator = TypeScriptGenerator::new("demo-ts", &Tool::Npm);
    let steps = generator.create_files();
    let paths: Vec<&str> = steps.iter().map(|s| s.path.as_str()).collect();
    assert_eq!(
        paths,
        vec![
            "package.json",
            "tsconfig.json",
            ".gitignore",
            ".prettierrc",
            ".prettierignore",
            "src/index.ts",
            "README.md"
        ]
    );
    for step in &steps {
        assert_eq!(step.operation, Operation::WriteFile);
        assert_eq!(step.context, format!("Failed to create {}", step.path));
    }
}

#[test]
fn typescript_build_directory_stays_empty() {
    let generator = TypeScriptGenerator::new("demo-ts", &Tool::Npm);
    for step in generator.create_files() {
        assert!(!step.path.starts_with("build"));
    }
}

#[test]
fn typescript_package_manifest_names_the_project_and_its_command() {
    let generator = TypeScriptGenerator::new("demo-ts", &Tool::Npm);
    let steps = generator.create_files();
    let manifest = &steps[0].contents;
    assert!(manifest.starts_with("{\n  \"name\": \"demo-ts\",\n  \"version\": \"0.1.0\",\n"));
    assert!(manifest.contains("  \"bin\": {\n    \"demo-ts\": \"./build/index.js\"\n  },\n"));
    assert!(manifest.ends_with("  \"engines\": {\n    \"node\": \">=16.0.0\"\n  }\n}"));
    assert_eq!(manifest.matches("demo-ts").count(), 2);
}

#[test]
fn typescript_static_files() {
    let generator = TypeScriptGenerator::new("demo-ts", &Tool::Npm);
    let steps = generator.create_files();
    assert!(steps[1].contents.starts_with("{\n  \"compilerOptions\": {\n    \"target\": \"ES2022\","));
    assert!(steps[2].contents.starts_with("# Dependencies\nnode_modules/\n"));
    assert_eq!(
        steps[3].contents,
        "{\n  \"semi\": true,\n  \"trailingComma\": \"all\",\n  \"singleQuote\": true,\n  \"printWidth\": 100,\n  \"tabWidth\": 2\n}"
    );
    assert_eq!(steps[4].contents, "node_modules/\ndist/\nbuild/\ncoverage/\n.next/\n");
    assert!(steps[5].contents.starts_with("#!/usr/bin/env node\nimport { McpServer }"));
    assert!(steps[5].contents.contains("throw new Error(`HTTP error! status: ${response.status}`);"));
}

#[test]
fn typescript_readme_names_the_project_and_the_manager() {
    let generator = TypeScriptGenerator::new("demo-ts", &Tool::Yarn);
    let steps = generator.create_files();
    let readme = &steps[6].contents;
    assert!(readme.starts_with("# demo-ts\n\nA Model Context Protocol (MCP) server"));
    assert!(readme.contains("- yarn (package manager)\n"));
    assert!(readme.contains("# Install dependencies\nyarn install\n"));
    assert!(readme.contains("yarn run build\n"));
    assert!(readme.contains("yarn run dev\n"));
    assert!(readme.contains("        \"/ABSOLUTE/PATH/TO/demo-ts/build/index.js\"\n"));
    assert!(readme.contains("Replace `/ABSOLUTE/PATH/TO/demo-ts` with the absolute path"));
    assert_eq!(readme.matches("demo-ts").count(), 3);
    assert_eq!(readme.matches("yarn").count(), 4);
}

#[test]
fn command_names() {
    assert_eq!(command_name(&Tool::Pnpm), "pnpm");
    assert_eq!(command_name(&Tool::Yarn), "yarn");
    assert_eq!(command_name(&Tool::Npm), "npm");
    assert_eq!(command_name(&Tool::Uv), "npm");
}

#[test]
fn pnpm_installs_with_short_dev_flag() {
    let generator = TypeScriptGenerator::new("demo-ts", &Tool::Pnpm);
    let calls = generator.init_package_manager();
    assert_eq!(calls.len(), 2);
    assert_eq!(calls[0].program, "pnpm");
    assert_eq!(calls[0].args, vec!["install", "@modelcontextprotocol/sdk", "zod"]);
    assert_eq!(calls[1].program, "pnpm");
    assert_eq!(calls[1].args, vec!["install", "-D", "@types/node", "typescript"]);
}

#[test]
fn yarn_adds() {
    let generator = TypeScriptGenerator::new("demo-ts", &Tool::Yarn);
    let calls = generator.init_package_manager();
    assert_eq!(calls[0].program, "yarn");
    assert_eq!(calls[0].args, vec!["add", "@modelcontextprotocol/sdk", "zod"]);
    assert_eq!(calls[1].args, vec!["add", "--dev", "@types/node", "typescript"]);
}

#[test]
fn npm_installs_with_long_dev_flag() {
    let generator = TypeScriptGenerator::new("demo-ts", &Tool::Npm);
    let calls = generator.init_package_manager();
    assert_eq!(calls[0].program, "npm");
    assert_eq!(calls[0].args, vec!["install", "@modelcontextprotocol/sdk", "zod"]);
    assert_eq!(calls[1].args, vec!["install", "--save-dev", "@types/node", "typescript"]);
}

#[test]
fn unrecognised_tool_falls_back_to_npm() {
    let generator = TypeScriptGenerator::new("demo-ts", &Tool::Uv);
    let calls = generator.init_package_manager();
    assert_eq!(calls[0].program, "npm");
    assert_eq!(calls[0].args, vec!["install", "@modelcontextprotocol/sdk", "zod"]);
    assert_eq!(calls[1].program, "npm");
    assert_eq!(calls[1].args, vec!["install", "--save-dev", "@types/node", "typescript"]);
}

#[test]
fn typescript_install_messages() {
    let generator = TypeScriptGenerator::new("demo-ts", &Tool::Pnpm);
    let calls = generator.init_package_manager();
    assert_eq!(
        calls[0].announce,
        vec!["📦 Installing dependencies with pnpm...", "Installing runtime dependencies..."]
    );
    assert_eq!(calls[0].complaint, "⚠️ Warning: Failed to install runtime dependencies");
    assert_eq!(
        calls[0].remedy,
        "Please run 'pnpm install @modelcontextprotocol/sdk zod' manually"
    );
    assert!(calls[0].closing_clean.is_empty());
    assert!(calls[0].closing_warned.is_empty());
    assert_eq!(calls[1].announce, vec!["Installing development dependencies..."]);
    assert_eq!(calls[1].complaint, "⚠️ Warning: Failed to install development dependencies");
    assert_eq!(
        calls[1].remedy,
        "Please run 'pnpm install --save-dev @types/node typescript' manually"
    );
    assert_eq!(calls[1].closing_clean.len(), 1);
    assert_eq!(calls[1].closing_clean[0].stream, Stream::Stdout);
    assert_eq!(calls[1].closing_clean[0].text, "✅ Dependencies installed successfully");
    assert_eq!(calls[1].closing_warned.len(), 2);
    assert_eq!(calls[1].closing_warned[0].stream, Stream::Stderr);
    assert_eq!(
        calls[1].closing_warned[0].text,
        "⚠️ Some dependencies may not have been installed properly."
    );
    assert_eq!(calls[1].closing_warned[1].stream, Stream::Stderr);
}

#[test]
fn typescript_plan_runs_the_stages_in_order() {
    let generator = TypeScriptGenerator::new("demo-ts", &Tool::Npm);
    let plan = generator.generate();
    let stages: Vec<u8> = plan
        .iter()
        .map(|step| match step {
            Step::Directory(_) => 0,
            Step::File(_) => 1,
            Step::PackageManager(_) => 2,
            Step::Git(_) => 3,
        })
        .collect();
    assert_eq!(stages, vec![0, 0, 0, 1, 1, 1, 1, 1, 1, 1, 2, 2, 3]);
    match &plan[12] {
        Step::Git(call) => {
            assert_eq!(call.program, "git");
            assert_eq!(call.args, vec!["init"]);
        }
        _ => panic!("the last step is version control"),
    }
}
