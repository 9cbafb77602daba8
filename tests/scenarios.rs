use flash::executor::{Action, Event, Execution, Stage};
use flash::job::{Job, JobStatus, Language, RuntimeKind};
use flash::worker::{AfterAttempt, Retries};

fn python_job(source: &str, stdin: &str, expected: &str, cpu_ms: u64) -> Job {
    let mut job = Job::new(source.to_string(), Language::preset("python").unwrap())
        .with_stdin(stdin.to_string())
        .with_expected_output(expected.to_string())
        .set_limits(cpu_ms, 128000, 64000, 60);
    job.id = 42;
    job
}

fn cpp_job(source: &str, compile: &str, run: &str) -> Job {
    let mut language = Language::preset("cpp").unwrap();
    language.compile_cmd = Some(compile.to_string());
    language.run_cmd = run.to_string();
    let mut job = Job::new(source.to_string(), language);
    job.id = 7;
    job
}

fn start(exec: &mut Execution) {
    let a = exec.step(Event::Started { now: 1000 });
    assert!(matches!(a, Action::InitBox { .. }));
    let a = exec.step(Event::BoxInitialised {
        success: true,
        root_output: "/var/local/lib/isolate/42\n".to_string(),
    });
    assert!(matches!(a, Action::WriteFiles { .. }));
}

fn run_with(exec: &mut Execution, stdout: &str, metadata: Option<&str>) -> Action {
    exec.step(Event::Ran {
        stdout: Some(stdout.to_string()),
        stderr: Some(String::new()),
        metadata: metadata.map(|m| m.to_string()),
        now: 1002,
    })
}

fn finish(exec: &mut Execution) -> JobStatus {
    match exec.step(Event::Stored) {
        Action::Finish { status } => status,
        other => panic!("expected a verdict, got {:?}", other),
    }
}

#[test]
fn accepted_python() {
    let mut exec = Execution::new(python_job("print(input())", "hello\n", "hello", 2000));
    start(&mut exec);
    assert!(matches!(exec.step(Event::FilesWritten), Action::Run { .. }));
    let a = run_with(&mut exec, "hello\n", Some("time:0.021\nmax-rss:9000\nexitcode:0\n"));
    assert!(matches!(a, Action::Store));
    let status = finish(&mut exec);
    assert_eq!(status, JobStatus::Accepted);
    assert_eq!(status.id(), 3);
    assert_eq!(exec.job.output.stdout.as_deref().unwrap().trim(), "hello");
    assert_eq!(exec.job.output.exit_code, Some(0));
    assert_eq!(exec.stage, Stage::Done);
}

#[test]
fn wrong_answer_python() {
    let mut exec = Execution::new(python_job("print(input())", "hello\n", "world", 2000));
    start(&mut exec);
    exec.step(Event::FilesWritten);
    run_with(&mut exec, "hello\n", Some("time:0.020\nmax-rss:9000\nexitcode:0\n"));
    let status = finish(&mut exec);
    assert_eq!(status, JobStatus::WrongAnswer);
    assert_eq!(status.id(), 4);
}

#[test]
fn compilation_error_cpp() {
    let mut exec = Execution::new(cpp_job("int main(){ return ; }", "g++ main.cpp", "./a.out"));
    start(&mut exec);
    match exec.step(Event::FilesWritten) {
        Action::Compile { args, compile_output_path } => {
            assert_eq!(args.last().unwrap(), "g++ main.cpp 2> /box/compile_output");
            assert_eq!(compile_output_path, "/var/local/lib/isolate/42/box/compile_output");
        }
        other => panic!("expected a compile, got {:?}", other),
    }
    let a = exec.step(Event::Compiled {
        success: false,
        compile_output: Some("main.cpp:1:19: error: return-statement with no value".to_string()),
        isolator_stderr: String::new(),
    });
    assert!(matches!(a, Action::Store));
    let status = finish(&mut exec);
    assert_eq!(status, JobStatus::CompilationError);
    assert_eq!(status.id(), 6);
    assert!(!exec.job.output.compile_output.as_deref().unwrap().is_empty());
    assert!(exec.job.output.stdout.as_deref().unwrap_or("").is_empty());
    assert_eq!(exec.job.output.time_ms, None);
    assert_eq!(exec.job.output.memory, None);
}

#[test]
fn time_limit_exceeded_python() {
    let mut exec = Execution::new(python_job("while True: pass", "", "", 1000));
    start(&mut exec);
    match exec.step(Event::FilesWritten) {
        Action::Run { args, .. } => {
            let t = args.iter().position(|a| a == "-t").unwrap();
            assert_eq!(args[t + 1], "1.000");
        }
        other => panic!("expected a run, got {:?}", other),
    }
    run_with(&mut exec, "", Some("status:TO\ntime:1.004\nmax-rss:8000\nmessage:Time limit exceeded\n"));
    let status = finish(&mut exec);
    assert_eq!(status, JobStatus::TimeLimitExceeded);
    assert_eq!(status.id(), 5);
    assert!(exec.job.output.time_ms.unwrap() >= 1000);
}

#[test]
fn runtime_error_sigsegv_cpp() {
    let mut exec = Execution::new(cpp_job("int main(){ *(int*)0 = 1; }", "g++ main.cpp", "./a.out"));
    start(&mut exec);
    exec.step(Event::FilesWritten);
    let a = exec.step(Event::Compiled { success: true, compile_output: Some(String::new()), isolator_stderr: String::new() });
    assert!(matches!(a, Action::Run { .. }));
    run_with(&mut exec, "", Some("status:SG\nexitsig:11\nexitcode:11\ntime:0.001\n"));
    let status = finish(&mut exec);
    assert_eq!(status, JobStatus::RuntimeError(RuntimeKind::Sigsegv));
    assert_eq!(status.id(), 7);
}

#[test]
fn internal_error_missing_metadata() {
    let job = python_job("print(1)", "", "", 2000);
    let mut retries = Retries::new();
    let mut attempts = 0;
    loop {
        let mut exec = Execution::new(job.clone());
        start(&mut exec);
        exec.step(Event::FilesWritten);
        let a = run_with(&mut exec, "1\n", None);
        // the record is still written back
        assert!(matches!(a, Action::Store));
        let status = finish(&mut exec);
        assert_eq!(status, JobStatus::InternalError);
        assert_eq!(status.id(), 13);
        assert_eq!(exec.job.output.exit_code, None);
        attempts += 1;
        if retries.record(Some(status)) == AfterAttempt::Stop {
            break;
        }
    }
    assert_eq!(attempts, 3);
}

#[test]
fn finish_time_never_precedes_start() {
    let mut exec = Execution::new(python_job("print(1)", "", "", 2000));
    start(&mut exec);
    exec.step(Event::FilesWritten);
    exec.step(Event::Ran {
        stdout: Some("1\n".to_string()),
        stderr: None,
        metadata: Some("time:0.010\n".to_string()),
        now: 900,
    });
    assert_eq!(exec.job.started_at, Some(1000));
    assert_eq!(exec.job.finished_at, Some(1000));
    assert_eq!(exec.job.output.stderr.as_deref(), Some(""));
}

fn attempt(job: Job) -> (Job, JobStatus) {
    let mut exec = Execution::new(job);
    start(&mut exec);
    exec.step(Event::FilesWritten);
    run_with(&mut exec, "hello\n", Some("time:0.021\nmax-rss:9000\nexitcode:0\n"));
    let status = finish(&mut exec);
    (exec.job, status)
}

#[test]
fn rerun_after_cleanup_gives_same_verdict() {
    let (after_first, first) = attempt(python_job("print(input())", "hello\n", "hello", 2000));
    let (after_second, second) = attempt(after_first.clone());
    assert_eq!(first, second);
    assert_eq!(after_first.output.stdout, after_second.output.stdout);
    assert_eq!(after_first.output.time_ms, after_second.output.time_ms);
}

#[test]
fn init_failure_is_internal_error() {
    let mut exec = Execution::new(python_job("print(1)", "", "", 2000));
    match exec.step(Event::Started { now: 5 }) {
        Action::InitBox { args } => assert_eq!(args, vec!["--cg", "--init", "-b", "42"]),
        other => panic!("expected init, got {:?}", other),
    }
    assert_eq!(exec.job.status, JobStatus::Processing);
    let a = exec.step(Event::BoxInitialised { success: true, root_output: "  \n".to_string() });
    assert!(matches!(a, Action::Store));
    assert_eq!(finish(&mut exec), JobStatus::InternalError);

    let mut exec = Execution::new(python_job("print(1)", "", "", 2000));
    exec.step(Event::Started { now: 5 });
    exec.step(Event::BoxInitialised { success: false, root_output: "/var/local/lib/isolate/42".to_string() });
    assert_eq!(finish(&mut exec), JobStatus::InternalError);
}

#[test]
fn box_paths_follow_init_output() {
    let mut exec = Execution::new(python_job("print(1)", "", "", 2000));
    exec.step(Event::Started { now: 5 });
    match exec.step(Event::BoxInitialised { success: true, root_output: "/var/local/lib/isolate/42\n".to_string() }) {
        Action::WriteFiles { source_path, stdin_path } => {
            assert_eq!(source_path, "/var/local/lib/isolate/42/box/main.py");
            assert_eq!(stdin_path, "/var/local/lib/isolate/42/box/stdin");
        }
        other => panic!("expected file setup, got {:?}", other),
    }
    match exec.step(Event::FilesWritten) {
        Action::Run { args, stdout_path, metadata_path, .. } => {
            assert_eq!(stdout_path, "/var/local/lib/isolate/42/box/stdout");
            assert_eq!(metadata_path, "/var/local/lib/isolate/42/box/metadata");
            assert_eq!(args[4], "/var/local/lib/isolate/42/box/metadata");
        }
        other => panic!("expected a run, got {:?}", other),
    }
}

#[test]
fn failures_and_stray_events_end_without_verdict() {
    let mut exec = Execution::new(python_job("print(1)", "", "", 2000));
    start(&mut exec);
    assert!(matches!(exec.step(Event::Failed), Action::Fail));
    assert_eq!(exec.stage, Stage::Done);
    assert!(matches!(exec.step(Event::Stored), Action::Fail));

    let mut exec = Execution::new(python_job("print(1)", "", "", 2000));
    assert!(matches!(exec.step(Event::Stored), Action::Fail));
}

#[test]
fn compile_failure_without_output_file_keeps_stderr() {
    let mut exec = Execution::new(cpp_job("int main(", "g++ main.cpp", "./a.out"));
    start(&mut exec);
    exec.step(Event::FilesWritten);
    exec.step(Event::Compiled { success: false, compile_output: None, isolator_stderr: "boom".to_string() });
    assert_eq!(exec.job.output.compile_output.as_deref(), Some("boom"));
    assert_eq!(finish(&mut exec), JobStatus::CompilationError);
}
