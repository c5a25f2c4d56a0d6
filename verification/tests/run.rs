use mcpc::generators::plan::{Line, Operation, Step, Stream};
use mcpc::generators::python::PythonGenerator;
use mcpc::generators::run::{Failure, Outcome, Progress, Run};
use mcpc::generators::typescript::TypeScriptGenerator;
use mcpc::generators::Generator;
use mcpc::Tool;

/// Takes every step of a run; `fails` says of a step, by its place in
/// the plan, whether it fails. Returns the places of the steps taken
/// and all that was printed.
fn drive(run: &mut Run, fails: &dyn Fn(usize, &Step) -> bool) -> (Vec<usize>, Vec<Line>) {
    let mut taken = Vec::new();
    let mut printed = Vec::new();
    let mut at = 0;
    loop {
        let outcome = match run.pending() {
            None => break,
            Some(step) => {
                if fails(at, step) {
                    Outcome::Failed(format!("cause {}", at))
                } else {
                    Outcome::Done
                }
            }
        };
        taken.push(at);
        printed.extend(run.record(outcome));
        at += 1;
        assert!(at <= 64);
    }
    (taken, printed)
}

fn texts(lines: &[Line], stream: Stream) -> Vec<&str> {
    lines.iter().filter(|l| l.stream == stream).map(|l| l.text.as_str()).collect()
}

#[test]
fn python_run_with_everything_present_succeeds() {
    let mut run = Run::new(PythonGenerator::new("demo-py", &Tool::Uv).generate(), None);
    assert_eq!(run.progress(), Progress::Start);
    let (taken, printed) = drive(&mut run, &|_, _| false);
    assert_eq!(taken, vec![0, 1, 2, 3, 4, 5, 6, 7, 8]);
    assert!(run.succeeded());
    assert!(!run.warned());
    assert!(run.failure().is_none());
    assert_eq!(run.exit_code(), 0);
    assert_eq!(run.progress(), Progress::Done);
    assert!(texts(&printed, Stream::Stderr).is_empty());
    let out = texts(&printed, Stream::Stdout);
    assert_eq!(out[0], "✅ Virtual environment created successfully");
    assert_eq!(out[1], "");
    assert_eq!(out[2], "Success: 📦 Python virtual environment created!");
    assert_eq!(out.len(), 18);
}

#[test]
fn progress_follows_the_stages() {
    let mut run = Run::new(TypeScriptGenerator::new("demo-ts", &Tool::Npm).generate(), None);
    let mut seen = vec![run.progress()];
    while run.pending().is_some() {
        run.record(Outcome::Done);
        if *seen.last().unwrap() != run.progress() {
            seen.push(run.progress());
        }
    }
    assert_eq!(
        seen,
        vec![
            Progress::Start,
            Progress::DirectoriesCreated,
            Progress::FilesWritten,
            Progress::PackageManagerAttempted,
            Progress::Done
        ]
    );
}

#[test]
fn failing_package_manager_warns_and_the_run_still_succeeds() {
    let mut run = Run::new(TypeScriptGenerator::new("demo-ts", &Tool::Pnpm).generate(), None);
    let (taken, printed) = drive(&mut run, &|_, step| matches!(step, Step::PackageManager(_)));
    assert_eq!(taken.len(), 13);
    assert!(run.succeeded());
    assert!(run.warned());
    assert_eq!(run.exit_code(), 0);
    assert_eq!(run.progress(), Progress::Done);
    assert_eq!(
        texts(&printed, Stream::Stderr),
        vec![
            "⚠️ Warning: Failed to install runtime dependencies: cause 10",
            "Please run 'pnpm install @modelcontextprotocol/sdk zod' manually",
            "⚠️ Warning: Failed to install development dependencies: cause 11",
            "Please run 'pnpm install --save-dev @types/node typescript' manually",
            "⚠️ Some dependencies may not have been installed properly.",
            "Please check the output above and install any missing dependencies manually.",
        ]
    );
    assert!(texts(&printed, Stream::Stdout).is_empty());
}

#[test]
fn one_failing_install_is_enough_for_the_closing_warning() {
    let mut run = Run::new(TypeScriptGenerator::new("demo-ts", &Tool::Yarn).generate(), None);
    let (_, printed) = drive(&mut run, &|at, _| at == 10);
    assert!(run.succeeded());
    assert!(run.warned());
    assert_eq!(
        texts(&printed, Stream::Stderr),
        vec![
            "⚠️ Warning: Failed to install runtime dependencies: cause 10",
            "Please run 'yarn install @modelcontextprotocol/sdk zod' manually",
            "⚠️ Some dependencies may not have been installed properly.",
            "Please check the output above and install any missing dependencies manually.",
        ]
    );
    assert!(texts(&printed, Stream::Stdout).is_empty());
}

#[test]
fn successful_installs_close_with_a_success_line() {
    let mut run = Run::new(TypeScriptGenerator::new("demo-ts", &Tool::Npm).generate(), None);
    let (_, printed) = drive(&mut run, &|_, _| false);
    assert!(run.succeeded());
    assert!(!run.warned());
    assert_eq!(texts(&printed, Stream::Stdout), vec!["✅ Dependencies installed successfully"]);
    assert!(texts(&printed, Stream::Stderr).is_empty());
}

#[test]
fn failing_environment_warns_on_standard_error() {
    let mut run = Run::new(PythonGenerator::new("demo-py", &Tool::Uv).generate(), None);
    let (taken, printed) = drive(&mut run, &|_, step| matches!(step, Step::PackageManager(_)));
    assert_eq!(taken.len(), 9);
    assert!(run.succeeded());
    assert!(run.warned());
    assert_eq!(run.exit_code(), 0);
    assert_eq!(
        texts(&printed, Stream::Stderr),
        vec![
            "⚠️ Warning: Failed to create virtual environment: cause 7",
            "Please run 'uv venv' manually in the project directory",
        ]
    );
    let out = texts(&printed, Stream::Stdout);
    assert_eq!(out.len(), 17);
    assert!(!out.contains(&"✅ Virtual environment created successfully"));
}

#[test]
fn failing_version_control_warns_and_the_run_still_succeeds() {
    let mut run = Run::new(PythonGenerator::new("demo-py", &Tool::Uv).generate(), None);
    let (taken, printed) = drive(&mut run, &|_, step| matches!(step, Step::Git(_)));
    assert_eq!(taken.len(), 9);
    assert!(run.succeeded());
    assert!(run.warned());
    assert_eq!(run.exit_code(), 0);
    assert_eq!(
        texts(&printed, Stream::Stderr),
        vec![
            "⚠️ Warning: Failed to initialize git repository: cause 8",
            "Please run 'git init' manually in the project directory",
        ]
    );
}

#[test]
fn failing_root_directory_ends_the_run_at_once() {
    let mut run = Run::new(TypeScriptGenerator::new("demo-ts", &Tool::Npm).generate(), None);
    let (taken, printed) = drive(&mut run, &|at, _| at == 0);
    assert_eq!(taken, vec![0]);
    assert!(printed.is_empty());
    assert!(!run.succeeded());
    assert_eq!(run.exit_code(), 1);
    assert_eq!(run.progress(), Progress::Failed);
    match run.failure() {
        Some(Failure::Step { context, cause }) => {
            assert_eq!(context, "Failed to create project directory: demo-ts");
            assert_eq!(cause, "cause 0");
        }
        _ => panic!("the run failed at a step"),
    }
}

#[test]
fn failing_file_aborts_the_remaining_writes() {
    let mut run = Run::new(TypeScriptGenerator::new("demo-ts", &Tool::Npm).generate(), None);
    let (taken, printed) = drive(&mut run, &|_, step| match step {
        Step::File(file) => file.path == ".gitignore",
        _ => false,
    });
    assert_eq!(taken, vec![0, 1, 2, 3, 4, 5]);
    assert!(printed.is_empty());
    assert_eq!(run.exit_code(), 1);
    match run.failure() {
        Some(Failure::Step { context, cause }) => {
            assert_eq!(context, "Failed to create .gitignore");
            assert_eq!(cause, "cause 5");
        }
        _ => panic!("the run failed at a step"),
    }
    assert!(run.pending().is_none());
    assert!(run.record(Outcome::Done).is_empty());
    assert!(run.pending().is_none());
    assert_eq!(run.exit_code(), 1);
}

#[test]
fn failing_executable_mark_is_warned_of_and_the_run_goes_on() {
    let mut run = Run::new(PythonGenerator::new("demo-py", &Tool::Uv).generate(), None);
    let (taken, printed) = drive(&mut run, &|_, step| match step {
        Step::File(file) => file.operation == Operation::MakeExecutable,
        _ => false,
    });
    assert_eq!(taken, vec![0, 1, 2, 3, 4, 5, 6, 7, 8]);
    assert!(run.succeeded());
    assert!(run.failure().is_none());
    assert!(!run.warned());
    assert_eq!(run.exit_code(), 0);
    assert_eq!(run.progress(), Progress::Done);
    assert_eq!(
        texts(&printed, Stream::Stderr),
        vec!["⚠️ Warning: Failed to make server.py executable: cause 5"]
    );
    let out = texts(&printed, Stream::Stdout);
    assert_eq!(out[0], "✅ Virtual environment created successfully");
    assert_eq!(out.len(), 18);
}

#[test]
fn executable_mark_that_succeeds_prints_nothing() {
    let mut run = Run::new(PythonGenerator::new("demo-py", &Tool::Uv).generate(), None);
    for _ in 0..5 {
        assert!(run.record(Outcome::Done).is_empty());
    }
    match run.pending() {
        Some(Step::File(file)) => assert_eq!(file.operation, Operation::MakeExecutable),
        _ => panic!("the mark follows the server script"),
    }
    assert!(run.record(Outcome::Done).is_empty());
    assert_eq!(run.progress(), Progress::DirectoriesCreated);
    assert!(run.failure().is_none());
}

#[test]
fn failing_server_script_still_ends_the_run() {
    let mut run = Run::new(PythonGenerator::new("demo-py", &Tool::Uv).generate(), None);
    let (taken, printed) = drive(&mut run, &|_, step| match step {
        Step::File(file) => file.operation == Operation::WriteFile && file.path == "server.py",
        _ => false,
    });
    assert_eq!(taken, vec![0, 1, 2, 3, 4]);
    assert!(printed.is_empty());
    assert_eq!(run.exit_code(), 1);
    match run.failure() {
        Some(Failure::Step { context, cause }) => {
            assert_eq!(context, "Failed to create server.py");
            assert_eq!(cause, "cause 4");
        }
        _ => panic!("the run failed at a step"),
    }
}

#[test]
fn refused_run_hands_out_no_step() {
    let plan = PythonGenerator::new("demo-py", &Tool::Uv).generate();
    let mut run = Run::new(plan, Some(Failure::TargetExists));
    assert!(run.pending().is_none());
    assert!(!run.succeeded());
    assert_eq!(run.exit_code(), 1);
    assert_eq!(run.progress(), Progress::Failed);
    assert!(run.record(Outcome::Done).is_empty());
    assert!(run.pending().is_none());
    assert!(matches!(run.failure(), Some(Failure::TargetExists)));
}

#[test]
fn empty_plan_is_done_at_once() {
    let mut run = Run::new(Vec::new(), None);
    assert!(run.pending().is_none());
    assert!(run.succeeded());
    assert_eq!(run.exit_code(), 0);
    assert_eq!(run.progress(), Progress::Done);
    assert!(run.record(Outcome::Failed("late".to_string())).is_empty());
    assert!(run.succeeded());
}

#[test]
fn program_that_exits_with_success_is_done() {
    assert!(matches!(Outcome::exited(true, String::new()), Outcome::Done));
    assert!(matches!(Outcome::exited(true, "a note on standard error".to_string()), Outcome::Done));
}

#[test]
fn program_that_exits_without_success_has_failed() {
    match Outcome::exited(false, "no network".to_string()) {
        Outcome::Failed(cause) => assert_eq!(cause, "no network"),
        Outcome::Done => panic!("the program failed"),
    }
}
