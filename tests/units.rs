use flash::classify::{determine_status, find_typeof_runtime};
use flash::facade::{assign_id, found_job, job_key, queue_name};
use flash::job::{ExecutionSettings, Job, JobError, JobStatus, Language, RuntimeKind};
use flash::metadata::{metadata_from_lines, parse_metadata};
use flash::sandbox::{box_id, cleanup_args, compile_args, init_args, run_args, seconds};
use flash::text::{decimal_text, parse_i32, parse_millis, parse_u64, same_text, split_lines};
use flash::sqlizer::{Sqlizer, SqlizerError};
use flash::worker::{pause_after_pop, AfterAttempt, PopResult, Retries};

#[test]
fn box_id_is_id_modulo_prime() {
    assert_eq!(box_id(5), 5);
    assert_eq!(box_id(2147483647), 0);
    assert_eq!(box_id(2147483648), 1);
    assert_eq!(box_id(u64::MAX), u64::MAX % 2147483647);
}

#[test]
fn decimal_text_writes_digits() {
    assert_eq!(decimal_text(0), "0");
    assert_eq!(decimal_text(907), "907");
    assert_eq!(decimal_text(u64::MAX as u128), "18446744073709551615");
    assert_eq!(decimal_text(u128::MAX), "340282366920938463463374607431768211455");
}

#[test]
fn seconds_from_millis() {
    assert_eq!(seconds(2000), "2.000");
    assert_eq!(seconds(1500), "1.500");
    assert_eq!(seconds(7), "0.007");
}

#[test]
fn parse_unsigned() {
    assert_eq!(parse_u64("1234"), Some(1234));
    assert_eq!(parse_u64("+12"), Some(12));
    assert_eq!(parse_u64(""), None);
    assert_eq!(parse_u64("+"), None);
    assert_eq!(parse_u64("12a"), None);
    assert_eq!(parse_u64("18446744073709551615"), Some(u64::MAX));
    assert_eq!(parse_u64("18446744073709551616"), None);
}

#[test]
fn parse_signed() {
    assert_eq!(parse_i32("11"), Some(11));
    assert_eq!(parse_i32("-6"), Some(-6));
    assert_eq!(parse_i32("-2147483648"), Some(i32::MIN));
    assert_eq!(parse_i32("2147483648"), None);
    assert_eq!(parse_i32("-"), None);
}

#[test]
fn parse_seconds_as_millis() {
    assert_eq!(parse_millis("0.012"), Some(12));
    assert_eq!(parse_millis("1.5"), Some(1500));
    assert_eq!(parse_millis("2"), Some(2000));
    assert_eq!(parse_millis("1.23456"), Some(1234));
    assert_eq!(parse_millis("abc"), None);
    assert_eq!(parse_millis("1."), None);
    assert_eq!(parse_millis(".5"), None);
}

#[test]
fn text_comparison() {
    assert!(same_text("abc", "abc"));
    assert!(!same_text("abc", "abd"));
    assert!(!same_text("ab", "abc"));
}

#[test]
fn lines_are_split() {
    assert_eq!(split_lines("a\r\nb\n\nc"), vec!["a", "b", "", "c"]);
    assert_eq!(split_lines("a\n"), vec!["a"]);
    assert!(split_lines("").is_empty());
    assert_eq!(split_lines("x\r"), vec!["x\r"]);
}

#[test]
fn metadata_fields_are_read() {
    let m = parse_metadata("time:0.250\ntime-wall:0.300\nmax-rss:5120\nexitcode:3\nmessage:Exited with error status 3\nstatus:RE\n");
    assert_eq!(m.time_ms, 250);
    assert_eq!(m.memory, 5120);
    assert_eq!(m.exit_code, 3);
    assert_eq!(m.message, "Exited with error status 3");
    assert_eq!(m.status, "RE");
}

#[test]
fn metadata_defaults_and_bad_numbers() {
    let m = parse_metadata("junk line\ntime:fast\nexitcode:x\n");
    assert_eq!(m.time_ms, 0);
    assert_eq!(m.memory, 0);
    assert_eq!(m.exit_code, 0);
    assert_eq!(m.message, "");
    assert_eq!(m.status, "");
}

#[test]
fn metadata_value_keeps_later_colons() {
    let m = parse_metadata("message:Caught fatal signal: 11\n");
    assert_eq!(m.message, "Caught fatal signal: 11");
}

#[test]
fn cg_mem_overrides_max_rss() {
    let a = parse_metadata("cg-mem:2048\nmax-rss:1024\n");
    let b = parse_metadata("max-rss:1024\ncg-mem:2048\n");
    assert_eq!(a.memory, 2048);
    assert_eq!(b.memory, 2048);
    assert_eq!(parse_metadata("max-rss:1024\n").memory, 1024);
}

#[test]
fn metadata_order_does_not_matter() {
    let lines = vec!["time:0.100", "cg-mem:300", "exitcode:6", "status:SG", "message:Caught fatal signal 6"];
    let mut reversed: Vec<String> = lines.iter().rev().map(|s| s.to_string()).collect();
    let forward: Vec<String> = lines.iter().map(|s| s.to_string()).collect();
    let a = metadata_from_lines(&forward);
    reversed.rotate_left(2);
    let b = metadata_from_lines(&reversed);
    assert_eq!((a.time_ms, a.memory, a.exit_code), (b.time_ms, b.memory, b.exit_code));
    assert_eq!((a.message, a.status), (b.message, b.status));
}

#[test]
fn classify_table() {
    assert_eq!(determine_status("TO", 0, "", "x"), JobStatus::TimeLimitExceeded);
    assert_eq!(determine_status("SG", 11, "", ""), JobStatus::RuntimeError(RuntimeKind::Sigsegv));
    assert_eq!(determine_status("SG", 25, "", ""), JobStatus::RuntimeError(RuntimeKind::Sigxfsz));
    assert_eq!(determine_status("SG", 8, "", ""), JobStatus::RuntimeError(RuntimeKind::Sigfpe));
    assert_eq!(determine_status("SG", 6, "", ""), JobStatus::RuntimeError(RuntimeKind::Sigabrt));
    assert_eq!(determine_status("SG", 9, "", ""), JobStatus::RuntimeError(RuntimeKind::Other));
    assert_eq!(determine_status("RE", 1, "", ""), JobStatus::RuntimeError(RuntimeKind::Nzec));
    assert_eq!(determine_status("XX", 0, "", ""), JobStatus::InternalError);
    assert_eq!(determine_status("", 0, "anything", ""), JobStatus::Accepted);
    assert_eq!(determine_status("", 0, "  42\r\n", "42\n"), JobStatus::Accepted);
    assert_eq!(determine_status("", 0, "4 2", "42"), JobStatus::WrongAnswer);
    assert_eq!(find_typeof_runtime(11), JobStatus::RuntimeError(RuntimeKind::Sigsegv));
}

#[test]
fn accepted_only_when_trimmed_outputs_match() {
    for (out, exp, ok) in [("a\n", "a", true), ("a", " a ", true), ("a\nb", "a b", false), ("", "x", false)] {
        let verdict = determine_status("", 0, out, exp);
        assert_eq!(verdict == JobStatus::Accepted, ok);
        assert_eq!(determine_status("TO", 0, out, exp) == JobStatus::Accepted, false);
    }
}

#[test]
fn status_ids_and_descriptions() {
    assert_eq!(JobStatus::Queued.id(), 1);
    assert_eq!(JobStatus::Processing.id(), 2);
    assert_eq!(JobStatus::RuntimeError(RuntimeKind::Nzec).id(), 11);
    assert_eq!(JobStatus::RuntimeError(RuntimeKind::Other).id(), 12);
    assert_eq!(JobStatus::ExecFormatError.id(), 14);
    assert_eq!(JobStatus::Queued.description(), "In Queue");
    assert_eq!(JobStatus::RuntimeError(RuntimeKind::Sigfpe).description(), "Runtime Error: (SIGFPE)");
    assert_eq!(JobStatus::TimeLimitExceeded.description(), "Time Limit Exceeded");
}

#[test]
fn language_presets() {
    let cpp = Language::preset("cpp").unwrap();
    assert_eq!(cpp.source_file, "main.cpp");
    assert!(cpp.is_compiled);
    assert_eq!(Language::preset("java").unwrap().compile_cmd.as_deref(), Some("/usr/bin/javac Main.java"));
    assert_eq!(Language::preset("sql").unwrap().run_cmd, "sqlite3");
    assert_eq!(Language::preset("javascript").unwrap().run_cmd, "/usr/bin/node main.js");
    assert!(Language::preset("rust").is_none());
    let py = Language::default();
    assert_eq!(py.name, "python");
    assert_eq!(py.run_cmd, "/usr/bin/python3 main.py");
}

#[test]
fn settings_defaults_and_requests() {
    let d = ExecutionSettings::default();
    assert_eq!(d.cpu_time_limit_ms, 2000);
    assert_eq!(d.wall_time_limit_ms, 5000);
    assert_eq!(d.memory_limit, 128000);
    assert_eq!(d.stack_limit, 64000);
    assert_eq!(d.max_processes, 60);
    assert_eq!(d.max_file_size, 4096);
    assert!(!d.enable_network);
    let r = ExecutionSettings::requested(Some(1500), None, Some(32000));
    assert_eq!((r.cpu_time_limit_ms, r.memory_limit, r.stack_limit), (1500, 128000, 32000));
}

#[test]
fn job_builders_and_validation() {
    let job = Job::new("print(1)".to_string(), Language::default())
        .with_stdin("in".to_string())
        .with_expected_output("1".to_string())
        .set_limits(1000, 64000, 8000, 10);
    assert_eq!(job.stdin, "in");
    assert_eq!(job.expected_output, "1");
    assert_eq!(job.settings.cpu_time_limit_ms, 1000);
    assert_eq!(job.settings.max_processes, 10);
    assert_eq!(job.settings.wall_time_limit_ms, 5000);
    assert_eq!(job.status, JobStatus::Queued);
    assert_eq!(job.number_of_runs, 5);
    assert!(job.validate().is_ok());
    let empty = Job::new(String::new(), Language::default());
    assert!(matches!(empty.validate(), Err(JobError::ConfigurationError)));
    assert_eq!(JobError::CompilationError("bad".to_string()).message(), "Compilation failed: bad");
    assert_eq!(JobError::TimeoutError.message(), "Execution timeout");
}

#[test]
fn isolator_arguments() {
    assert_eq!(init_args(12), vec!["--cg", "--init", "-b", "12"]);
    assert_eq!(cleanup_args(12), vec!["--cg", "-b", "12", "--cleanup"]);
    let c = compile_args(3, "/b/box/metadata", 128000, "g++ main.cpp");
    assert_eq!(&c[..4], &["--cg", "-b", "3", "-M"]);
    assert!(c.contains(&"--cg-mem=128000".to_string()));
    assert!(c.windows(2).any(|w| w[0] == "-f" && w[1] == "1024"));
    assert!(c.windows(2).any(|w| w[0] == "-k" && w[1] == "12800"));
    let r = run_args(3, "/b/box/metadata", 2500, 64000, "./a.out");
    assert!(r.windows(2).any(|w| w[0] == "-t" && w[1] == "2.500"));
    assert!(r.windows(2).any(|w| w[0] == "-k" && w[1] == "128000"));
    assert!(!r.contains(&"-f".to_string()));
    assert_eq!(r.last().unwrap(), "./a.out > /box/stdout 2> /box/stderr");
}

#[test]
fn submit_and_check_helpers() {
    assert_eq!(queue_name(), "jobs");
    assert_eq!(job_key(1234567), "1234567");
    let mut job = Job::new("x".to_string(), Language::default());
    job.id = 99;
    assert_eq!(assign_id(&mut job), "99");
    assert_eq!(job.id, 99);
    let mut unset = Job::new("x".to_string(), Language::default());
    unset.id = 0;
    let key = assign_id(&mut unset);
    assert_eq!(key, unset.id.to_string());
    assert_eq!(found_job(None).unwrap_err(), "Job not found");
    assert_eq!(found_job(Some(job)).unwrap().id, 99);
}

#[test]
fn check_view_projects_job() {
    let mut job = Job::new("x".to_string(), Language::default());
    job.id = 5;
    job.status = JobStatus::WrongAnswer;
    job.output.stdout = Some("out".to_string());
    job.output.time_ms = Some(12);
    let v = job.check_view();
    assert_eq!(v.token, 5);
    assert_eq!(v.stdout, "out");
    assert_eq!(v.stderr, "");
    assert_eq!(v.time_ms, 12);
    assert_eq!(v.memory, 0);
    assert_eq!(v.started_at, 0);
    assert_eq!(v.status_id, 4);
    assert_eq!(v.status_description, "Wrong Answer");
}

#[test]
fn retries_stop_after_three_failures() {
    let mut r = Retries::new();
    assert_eq!(r.record(None), AfterAttempt::Retry);
    assert_eq!(r.record(None), AfterAttempt::Retry);
    assert_eq!(r.record(None), AfterAttempt::Stop);
    let mut ok = Retries::new();
    assert_eq!(ok.record(Some(JobStatus::CompilationError)), AfterAttempt::Stop);
    assert_eq!(ok.failures, 0);
    assert_eq!(pause_after_pop(PopResult::Error), 1000);
    assert_eq!(pause_after_pop(PopResult::Empty), 100);
    assert_eq!(pause_after_pop(PopResult::Job), 0);
}

#[test]
fn sqlizer_workspace_and_verdict() {
    let s = Sqlizer::new(123456);
    assert_eq!(s.box_id, 456);
    assert_eq!(s.sql_dir, "/tmp/sqlizer/456");
    assert_eq!(s.name(), "Sqlizer #456");
    let timing = "\tCommand being timed: \"sqlite3\"\n\tUser time (seconds): 0.25\n\tSystem time (seconds): 0.01\n\tMaximum resident set size (kbytes): 3456\n";
    let r = Sqlizer::judge("1|a\n".to_string(), "1|a\n".to_string(), String::new(), timing);
    assert_eq!((r.exit_code, r.message.as_str(), r.status.as_str()), (0, "Correct", "Correct"));
    assert_eq!((r.time_ms, r.wall_time_ms, r.memory), (250, 10, 3456));
    let w = Sqlizer::judge("2|b\n".to_string(), "1|a\n".to_string(), "err".to_string(), "");
    assert_eq!((w.exit_code, w.status.as_str(), w.std_err.as_str()), (1, "Incorrect", "err"));
    assert_eq!((w.time_ms, w.memory), (0, 0));
    assert_eq!(SqlizerError::DockerError("x".to_string()).message(), "Docker error: x");
    assert_eq!(SqlizerError::OutputMismatch.message(), "Query output did not match expected output");
}
