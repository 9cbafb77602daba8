use vstd::prelude::*;
use vstd::string::*;
use crate::text::{opt_text, same_text};

verus! {

/// The kind of a runtime error.
#[derive(Clone, Copy, Debug, PartialEq, Eq, Structural)]
pub enum RuntimeKind {
    Sigsegv,
    Sigxfsz,
    Sigfpe,
    Sigabrt,
    /// A non-zero exit code without a fatal signal.
    Nzec,
    Other,
}

/// The state or verdict of a job.
#[derive(Clone, Copy, Debug, PartialEq, Eq, Structural)]
pub enum JobStatus {
    Queued,
    Processing,
    Accepted,
    WrongAnswer,
    TimeLimitExceeded,
    CompilationError,
    RuntimeError(RuntimeKind),
    InternalError,
    ExecFormatError,
}

/// The number by which clients know a status.
pub open spec fn status_id(s: JobStatus) -> i32 {
    match s {
        JobStatus::Queued => 1,
        JobStatus::Processing => 2,
        JobStatus::Accepted => 3,
        JobStatus::WrongAnswer => 4,
        JobStatus::TimeLimitExceeded => 5,
        JobStatus::CompilationError => 6,
        JobStatus::RuntimeError(k) => match k {
            RuntimeKind::Sigsegv => 7,
            RuntimeKind::Sigxfsz => 8,
            RuntimeKind::Sigfpe => 9,
            RuntimeKind::Sigabrt => 10,
            RuntimeKind::Nzec => 11,
            RuntimeKind::Other => 12,
        },
        JobStatus::InternalError => 13,
        JobStatus::ExecFormatError => 14,
    }
}

/// Whether a status is a verdict, that is neither `Queued` nor `Processing`.
pub open spec fn is_terminal(s: JobStatus) -> bool {
    !(s is Queued) && !(s is Processing)
}

/// The name of a runtime error kind.
pub open spec fn kind_name(k: RuntimeKind) -> Seq<char> {
    match k {
        RuntimeKind::Sigsegv => "SIGSEGV"@,
        RuntimeKind::Sigxfsz => "SIGXFSZ"@,
        RuntimeKind::Sigfpe => "SIGFPE"@,
        RuntimeKind::Sigabrt => "SIGABRT"@,
        RuntimeKind::Nzec => "NZEC"@,
        RuntimeKind::Other => "Other"@,
    }
}

/// The text by which clients read a status.
pub open spec fn status_description(s: JobStatus) -> Seq<char> {
    match s {
        JobStatus::Queued => "In Queue"@,
        JobStatus::Processing => "Processing"@,
        JobStatus::Accepted => "Accepted"@,
        JobStatus::WrongAnswer => "Wrong Answer"@,
        JobStatus::TimeLimitExceeded => "Time Limit Exceeded"@,
        JobStatus::CompilationError => "Compilation Error"@,
        JobStatus::RuntimeError(k) => "Runtime Error: ("@ + kind_name(k) + ")"@,
        JobStatus::InternalError => "Internal Error"@,
        JobStatus::ExecFormatError => "Exec Format Error"@,
    }
}

impl RuntimeKind {
    /// The name of the kind, as in `SIGSEGV`.
    pub fn name(&self) -> (r: &'static str)
        ensures
            r@ == kind_name(*self),
    {
        match self {
            RuntimeKind::Sigsegv => "SIGSEGV",
            RuntimeKind::Sigxfsz => "SIGXFSZ",
            RuntimeKind::Sigfpe => "SIGFPE",
            RuntimeKind::Sigabrt => "SIGABRT",
            RuntimeKind::Nzec => "NZEC",
            RuntimeKind::Other => "Other",
        }
    }
}

impl JobStatus {
    /// The number by which clients know the status, from 1 to 14.
    pub fn id(&self) -> (r: i32)
        ensures
            r == status_id(*self),
            1 <= r <= 14,
    {
        match self {
            JobStatus::Queued => 1,
            JobStatus::Processing => 2,
            JobStatus::Accepted => 3,
            JobStatus::WrongAnswer => 4,
            JobStatus::TimeLimitExceeded => 5,
            JobStatus::CompilationError => 6,
            JobStatus::RuntimeError(k) => match k {
                RuntimeKind::Sigsegv => 7,
                RuntimeKind::Sigxfsz => 8,
                RuntimeKind::Sigfpe => 9,
                RuntimeKind::Sigabrt => 10,
                RuntimeKind::Nzec => 11,
                RuntimeKind::Other => 12,
            },
            JobStatus::InternalError => 13,
            JobStatus::ExecFormatError => 14,
        }
    }

    /// The text by which clients read the status, as in `Wrong Answer`.
    pub fn description(&self) -> (r: String)
        ensures
            r@ == status_description(*self),
    {
        match self {
            JobStatus::Queued => String::from_str("In Queue"),
            JobStatus::Processing => String::from_str("Processing"),
            JobStatus::Accepted => String::from_str("Accepted"),
            JobStatus::WrongAnswer => String::from_str("Wrong Answer"),
            JobStatus::TimeLimitExceeded => String::from_str("Time Limit Exceeded"),
            JobStatus::CompilationError => String::from_str("Compilation Error"),
            JobStatus::RuntimeError(k) => {
                let mut s = String::from_str("Runtime Error: (");
                s.append(k.name());
                s.append(")");
                s
            },
            JobStatus::InternalError => String::from_str("Internal Error"),
            JobStatus::ExecFormatError => String::from_str("Exec Format Error"),
        }
    }
}

} // verus!

verus! {

/// How a language's programs are compiled and run.
#[derive(Clone, Debug)]
pub struct Language {
    pub name: String,
    /// The file name under which the source is written in the box.
    pub source_file: String,
    /// The shell command that compiles the source, for compiled languages.
    pub compile_cmd: Option<String>,
    /// The shell command that runs the program.
    pub run_cmd: String,
    pub is_compiled: bool,
}

/// The plain values of a `Language`.
pub struct LanguageView {
    pub name: Seq<char>,
    pub source_file: Seq<char>,
    pub compile_cmd: Option<Seq<char>>,
    pub run_cmd: Seq<char>,
    pub is_compiled: bool,
}

impl View for Language {
    type V = LanguageView;

    open spec fn view(&self) -> LanguageView {
        LanguageView {
            name: self.name@,
            source_file: self.source_file@,
            compile_cmd: match self.compile_cmd {
                Some(c) => Some(c@),
                None => None,
            },
            run_cmd: self.run_cmd@,
            is_compiled: self.is_compiled,
        }
    }
}

/// The preset for Python, the default language.
pub open spec fn python_preset() -> LanguageView {
    LanguageView {
        name: "python"@,
        source_file: "main.py"@,
        compile_cmd: None,
        run_cmd: "/usr/bin/python3 main.py"@,
        is_compiled: false,
    }
}

/// The preset that a language name selects, if any.
pub open spec fn preset_of(name: Seq<char>) -> Option<LanguageView> {
    if name == "python"@ {
        Some(python_preset())
    } else if name == "cpp"@ {
        Some(
            LanguageView {
                name: "cpp"@,
                source_file: "main.cpp"@,
                compile_cmd: Some(
                    "/usr/bin/g++ -O0 -Wall -Wextra -Werror -Wpedantic -Wfatal-errors main.cpp"@,
                ),
                run_cmd: "./a.out"@,
                is_compiled: true,
            },
        )
    } else if name == "javascript"@ {
        Some(
            LanguageView {
                name: "javascript"@,
                source_file: "main.js"@,
                compile_cmd: None,
                run_cmd: "/usr/bin/node main.js"@,
                is_compiled: false,
            },
        )
    } else if name == "java"@ {
        Some(
            LanguageView {
                name: "java"@,
                source_file: "Main.java"@,
                compile_cmd: Some("/usr/bin/javac Main.java"@),
                run_cmd: "/usr/bin/java Main"@,
                is_compiled: false,
            },
        )
    } else if name == "sql"@ {
        Some(
            LanguageView {
                name: "sql"@,
                source_file: "main.sql"@,
                compile_cmd: None,
                run_cmd: "sqlite3"@,
                is_compiled: false,
            },
        )
    } else {
        None
    }
}

fn make_language(
    name: &str,
    source_file: &str,
    compile_cmd: Option<&str>,
    run_cmd: &str,
    is_compiled: bool,
) -> (r: Language)
    ensures
        r@ == (LanguageView {
            name: name@,
            source_file: source_file@,
            compile_cmd: match compile_cmd {
                Some(c) => Some(c@),
                None => None,
            },
            run_cmd: run_cmd@,
            is_compiled,
        }),
{
    Language {
        name: String::from_str(name),
        source_file: String::from_str(source_file),
        compile_cmd: match compile_cmd {
            Some(c) => Some(String::from_str(c)),
            None => None,
        },
        run_cmd: String::from_str(run_cmd),
        is_compiled,
    }
}

impl Language {
    /// The preset of a language by its name: `python`, `cpp`, `javascript`, `java` or `sql`.
    pub fn preset(name: &str) -> (r: Option<Language>)
        ensures
            match r {
                Some(l) => preset_of(name@) == Some(l@),
                None => preset_of(name@) is None,
            },
    {
        if same_text(name, "python") {
            Some(Language::default())
        } else if same_text(name, "cpp") {
            Some(
                make_language(
                    "cpp",
                    "main.cpp",
                    Some("/usr/bin/g++ -O0 -Wall -Wextra -Werror -Wpedantic -Wfatal-errors main.cpp"),
                    "./a.out",
                    true,
                ),
            )
        } else if same_text(name, "javascript") {
            Some(make_language("javascript", "main.js", None, "/usr/bin/node main.js", false))
        } else if same_text(name, "java") {
            Some(
                make_language(
                    "java",
                    "Main.java",
                    Some("/usr/bin/javac Main.java"),
                    "/usr/bin/java Main",
                    false,
                ),
            )
        } else if same_text(name, "sql") {
            Some(make_language("sql", "main.sql", None, "sqlite3", false))
        } else {
            None
        }
    }
}

impl Default for Language {
    /// Python.
    fn default() -> (r: Language)
        ensures
            r@ == python_preset(),
    {
        make_language("python", "main.py", None, "/usr/bin/python3 main.py", false)
    }
}

/// The resource limits of a run.
#[derive(Clone, Copy, Debug, PartialEq, Eq, Structural)]
pub struct ExecutionSettings {
    /// CPU time, in milliseconds.
    pub cpu_time_limit_ms: u64,
    /// Wall-clock time, in milliseconds.
    pub wall_time_limit_ms: u64,
    /// Memory, in kilobytes.
    pub memory_limit: u64,
    /// Stack, in kilobytes.
    pub stack_limit: u64,
    pub max_processes: u32,
    /// Largest file the program may write, in kilobytes.
    pub max_file_size: u64,
    pub enable_network: bool,
}

/// The default limits: 2 s of CPU, 5 s of wall time, 128000 KB of memory, 64000 KB of stack,
/// 60 processes, files up to 4096 KB, no network.
pub open spec fn default_settings() -> ExecutionSettings {
    ExecutionSettings {
        cpu_time_limit_ms: 2000,
        wall_time_limit_ms: 5000,
        memory_limit: 128000,
        stack_limit: 64000,
        max_processes: 60,
        max_file_size: 4096,
        enable_network: false,
    }
}

impl Default for ExecutionSettings {
    fn default() -> (r: ExecutionSettings)
        ensures
            r == default_settings(),
    {
        ExecutionSettings {
            cpu_time_limit_ms: 2000,
            wall_time_limit_ms: 5000,
            memory_limit: 128000,
            stack_limit: 64000,
            max_processes: 60,
            max_file_size: 4096,
            enable_network: false,
        }
    }
}

impl ExecutionSettings {
    /// The default limits, with the CPU time, memory and stack that a request names in place
    /// of the defaults.
    pub fn requested(
        cpu_time_limit_ms: Option<u64>,
        memory_limit: Option<u64>,
        stack_limit: Option<u64>,
    ) -> (r: ExecutionSettings)
        ensures
            r == (ExecutionSettings {
                cpu_time_limit_ms: match cpu_time_limit_ms {
                    Some(t) => t,
                    None => 2000,
                },
                memory_limit: match memory_limit {
                    Some(m) => m,
                    None => 128000,
                },
                stack_limit: match stack_limit {
                    Some(s) => s,
                    None => 64000,
                },
                ..default_settings()
            }),
    {
        let d = ExecutionSettings::default();
        ExecutionSettings {
            cpu_time_limit_ms: match cpu_time_limit_ms {
                Some(t) => t,
                None => d.cpu_time_limit_ms,
            },
            memory_limit: match memory_limit {
                Some(m) => m,
                None => d.memory_limit,
            },
            stack_limit: match stack_limit {
                Some(s) => s,
                None => d.stack_limit,
            },
            ..d
        }
    }
}

} // verus!

verus! {

/// What a run produced.
#[derive(Clone, Debug)]
pub struct JobOutput {
    pub stdout: Option<String>,
    pub stderr: Option<String>,
    pub compile_output: Option<String>,
    /// CPU time, in milliseconds.
    pub time_ms: Option<u64>,
    /// Peak memory, in kilobytes.
    pub memory: Option<u64>,
    pub exit_code: Option<i32>,
    pub message: Option<String>,
}

/// Whether an output holds nothing yet.
pub open spec fn output_is_empty(o: JobOutput) -> bool {
    &&& o.stdout is None
    &&& o.stderr is None
    &&& o.compile_output is None
    &&& o.time_ms is None
    &&& o.memory is None
    &&& o.exit_code is None
    &&& o.message is None
}

impl Default for JobOutput {
    fn default() -> (r: JobOutput)
        ensures
            output_is_empty(r),
    {
        JobOutput {
            stdout: None,
            stderr: None,
            compile_output: None,
            time_ms: None,
            memory: None,
            exit_code: None,
            message: None,
        }
    }
}

/// A submission and, once it has run, its result.
#[derive(Clone, Debug)]
pub struct Job {
    /// Names the job in the store and, reduced, its sandbox box.
    pub id: u64,
    pub source_code: String,
    pub language: Language,
    pub stdin: String,
    /// Compared against the program's output; empty disables the comparison.
    pub expected_output: String,
    pub settings: ExecutionSettings,
    pub status: JobStatus,
    /// Seconds since the Unix epoch.
    pub created_at: i64,
    pub started_at: Option<i64>,
    pub finished_at: Option<i64>,
    pub output: JobOutput,
    pub number_of_runs: u8,
}

/// Errors in a job's configuration or run.
#[derive(Clone, Debug)]
pub enum JobError {
    ConfigurationError,
    TimeoutError,
    MemoryLimitExceeded,
    CompilationError(String),
    RuntimeError(String),
}

impl JobError {
    /// A sentence that says what went wrong.
    pub fn message(&self) -> (r: String)
        ensures
            r@ == match self {
                JobError::ConfigurationError => "Invalid job configuration"@,
                JobError::TimeoutError => "Execution timeout"@,
                JobError::MemoryLimitExceeded => "Memory limit exceeded"@,
                JobError::CompilationError(e) => "Compilation failed: "@ + e@,
                JobError::RuntimeError(e) => "Runtime error: "@ + e@,
            },
    {
        match self {
            JobError::ConfigurationError => String::from_str("Invalid job configuration"),
            JobError::TimeoutError => String::from_str("Execution timeout"),
            JobError::MemoryLimitExceeded => String::from_str("Memory limit exceeded"),
            JobError::CompilationError(e) => {
                let mut s = String::from_str("Compilation failed: ");
                s.append(e.as_str());
                s
            },
            JobError::RuntimeError(e) => {
                let mut s = String::from_str("Runtime error: ");
                s.append(e.as_str());
                s
            },
        }
    }
}

/// Relies on `uuid::Uuid::new_v4`: a random identifier, of which the low 64 bits are kept.
#[verifier::external_body]
pub(crate) fn random_id() -> u64 {
    uuid::Uuid::new_v4().as_u128() as u64
}

/// Relies on `std::time::SystemTime::now`: whole seconds since the Unix epoch, or zero for a
/// clock set before it.
#[verifier::external_body]
pub(crate) fn unix_now() -> i64 {
    match std::time::SystemTime::now().duration_since(std::time::UNIX_EPOCH) {
        Ok(d) => d.as_secs() as i64,
        Err(_) => 0,
    }
}

/// Whether `j` is a new submission: queued, with default limits, never run.
pub open spec fn is_fresh(j: Job) -> bool {
    &&& j.status == JobStatus::Queued
    &&& j.settings == default_settings()
    &&& j.started_at is None
    &&& j.finished_at is None
    &&& output_is_empty(j.output)
    &&& j.number_of_runs == 5
}

impl Default for Job {
    /// An empty Python job with id zero, created now.
    fn default() -> (r: Job)
        ensures
            is_fresh(r),
            r.id == 0,
            r.source_code@.len() == 0,
            r.language@ == python_preset(),
            r.stdin@.len() == 0,
            r.expected_output@.len() == 0,
    {
        Job {
            id: 0,
            source_code: String::new(),
            language: Language::default(),
            stdin: String::new(),
            expected_output: String::new(),
            settings: ExecutionSettings::default(),
            status: JobStatus::Queued,
            created_at: unix_now(),
            started_at: None,
            finished_at: None,
            output: JobOutput::default(),
            number_of_runs: 5,
        }
    }
}

impl Job {
    /// A new submission of `source_code` in `language`, under a random id, with empty stdin
    /// and expected output.
    pub fn new(source_code: String, language: Language) -> (r: Job)
        ensures
            is_fresh(r),
            r.source_code == source_code,
            r.language == language,
            r.stdin@.len() == 0,
            r.expected_output@.len() == 0,
    {
        Job { id: random_id(), source_code, language, ..Job::default() }
    }

    /// The job with `stdin` as its standard input.
    pub fn with_stdin(self, stdin: String) -> (r: Job)
        ensures
            r == (Job { stdin, ..self }),
    {
        let mut j = self;
        j.stdin = stdin;
        j
    }

    /// The job with `expected_output` as the output it is held to.
    pub fn with_expected_output(self, expected_output: String) -> (r: Job)
        ensures
            r == (Job { expected_output, ..self }),
    {
        let mut j = self;
        j.expected_output = expected_output;
        j
    }

    /// The job with the given CPU time (milliseconds), memory and stack (kilobytes) and
    /// process limits.
    pub fn set_limits(
        self,
        cpu_time_limit_ms: u64,
        memory_limit: u64,
        stack_limit: u64,
        max_processes: u32,
    ) -> (r: Job)
        ensures
            r == (Job {
                settings: ExecutionSettings {
                    cpu_time_limit_ms,
                    memory_limit,
                    stack_limit,
                    max_processes,
                    ..self.settings
                },
                ..self
            }),
    {
        let mut j = self;
        j.settings.cpu_time_limit_ms = cpu_time_limit_ms;
        j.settings.memory_limit = memory_limit;
        j.settings.stack_limit = stack_limit;
        j.settings.max_processes = max_processes;
        j
    }

    /// Refuses a job without source code.
    pub fn validate(&self) -> (r: Result<(), JobError>)
        ensures
            r is Ok <==> self.source_code@.len() > 0,
            r matches Err(e) ==> e is ConfigurationError,
    {
        if self.source_code.as_str().unicode_len() == 0 {
            Err(JobError::ConfigurationError)
        } else {
            Ok(())
        }
    }
}

} // verus!

verus! {

/// The plain values of a `JobOutput`.
pub struct JobOutputView {
    pub stdout: Option<Seq<char>>,
    pub stderr: Option<Seq<char>>,
    pub compile_output: Option<Seq<char>>,
    pub time_ms: Option<u64>,
    pub memory: Option<u64>,
    pub exit_code: Option<i32>,
    pub message: Option<Seq<char>>,
}

/// An output that holds nothing.
pub open spec fn empty_output() -> JobOutputView {
    JobOutputView {
        stdout: None,
        stderr: None,
        compile_output: None,
        time_ms: None,
        memory: None,
        exit_code: None,
        message: None,
    }
}

impl View for JobOutput {
    type V = JobOutputView;

    open spec fn view(&self) -> JobOutputView {
        JobOutputView {
            stdout: opt_text(self.stdout),
            stderr: opt_text(self.stderr),
            compile_output: opt_text(self.compile_output),
            time_ms: self.time_ms,
            memory: self.memory,
            exit_code: self.exit_code,
            message: opt_text(self.message),
        }
    }
}

/// The plain values of a `Job`.
pub struct JobView {
    pub id: u64,
    pub source_code: Seq<char>,
    pub language: LanguageView,
    pub stdin: Seq<char>,
    pub expected_output: Seq<char>,
    pub settings: ExecutionSettings,
    pub status: JobStatus,
    pub created_at: i64,
    pub started_at: Option<i64>,
    pub finished_at: Option<i64>,
    pub output: JobOutputView,
    pub number_of_runs: u8,
}

impl View for Job {
    type V = JobView;

    open spec fn view(&self) -> JobView {
        JobView {
            id: self.id,
            source_code: self.source_code@,
            language: self.language@,
            stdin: self.stdin@,
            expected_output: self.expected_output@,
            settings: self.settings,
            status: self.status,
            created_at: self.created_at,
            started_at: self.started_at,
            finished_at: self.finished_at,
            output: self.output@,
            number_of_runs: self.number_of_runs,
        }
    }
}

/// Whether two jobs hold the same submission: id, source, language, input, expected output and
/// limits.
pub open spec fn same_submission(a: JobView, b: JobView) -> bool {
    &&& a.id == b.id
    &&& a.source_code == b.source_code
    &&& a.language == b.language
    &&& a.stdin == b.stdin
    &&& a.expected_output == b.expected_output
    &&& a.settings == b.settings
}

/// Whether a job's start and finish times, where both are set, come in order.
pub open spec fn times_ordered(j: JobView) -> bool {
    j.started_at matches Some(s) && j.finished_at matches Some(f) ==> s <= f
}

} // verus!
