use vstd::prelude::*;
use vstd::string::*;
use crate::classify::{classify, determine_status};
use crate::job::{empty_output, Job, JobOutput, JobOutputView, JobStatus, JobView};
use crate::metadata::{metadata_of, parse_metadata};
use crate::sandbox::{box_id, box_id_of, compile_args, compile_args_of, init_args, init_args_of, join, run_args, run_args_of};
use crate::text::{decimal, decimal_text, lines_of, opt_text, trim, trimmed, views_of};

verus! {

/// Where an attempt to run a job stands.
#[derive(Clone, Copy, Debug, PartialEq, Eq, Structural)]
pub enum Stage {
    /// Not started.
    Fresh,
    /// Waiting for the box to be set up.
    Initialising,
    /// Waiting for the source and the input to be written into the box.
    WritingFiles,
    /// Waiting for the compiler.
    Compiling,
    /// Waiting for the program.
    Running,
    /// Waiting for the job record to be written back to the store.
    Storing,
    /// Over.
    Done,
}

/// What the outside world reports back to an attempt.
#[derive(Debug)]
pub enum Event {
    /// The attempt begins, at `now` seconds since the Unix epoch.
    Started { now: i64 },
    /// The isolator set up the box; `root_output` is what it printed, the box's root path.
    BoxInitialised { success: bool, root_output: String },
    /// The source and the input are in the box.
    FilesWritten,
    /// The compiler ran; `compile_output` is its error file, where it exists, and
    /// `isolator_stderr` what the isolator printed on its standard error.
    Compiled { success: bool, compile_output: Option<String>, isolator_stderr: String },
    /// The program ran; each text is the content of its file in the box, where the file exists.
    /// `now` is the time it finished.
    Ran { stdout: Option<String>, stderr: Option<String>, metadata: Option<String>, now: i64 },
    /// The job record is stored.
    Stored,
    /// The last action could not be carried out (a process did not start, a file could not be
    /// written or read, the store could not be reached).
    Failed,
}

/// What an attempt asks the outside world to do next.
#[derive(Debug)]
pub enum Action {
    /// Run the isolator with `args` to set up the box.
    InitBox { args: Vec<String> },
    /// Write the job's source code to `source_path` and its input to `stdin_path`.
    WriteFiles { source_path: String, stdin_path: String },
    /// Run the isolator with `args` to compile; the compiler's errors land in
    /// `compile_output_path`.
    Compile { args: Vec<String>, compile_output_path: String },
    /// Run the isolator with `args`, with the file `stdin_path` as its standard input; then
    /// read the files at the other paths.
    Run {
        args: Vec<String>,
        stdin_path: String,
        stdout_path: String,
        stderr_path: String,
        metadata_path: String,
    },
    /// Write the job record back to the store.
    Store,
    /// The attempt is over with a verdict.
    Finish { status: JobStatus },
    /// The attempt is over without one; it may be tried again.
    Fail,
}

/// The plain values of an `Event`.
pub enum EventView {
    Started { now: i64 },
    BoxInitialised { success: bool, root_output: Seq<char> },
    FilesWritten,
    Compiled { success: bool, compile_output: Option<Seq<char>>, isolator_stderr: Seq<char> },
    Ran {
        stdout: Option<Seq<char>>,
        stderr: Option<Seq<char>>,
        metadata: Option<Seq<char>>,
        now: i64,
    },
    Stored,
    Failed,
}

/// The plain values of an `Action`.
pub enum ActionView {
    InitBox { args: Seq<Seq<char>> },
    WriteFiles { source_path: Seq<char>, stdin_path: Seq<char> },
    Compile { args: Seq<Seq<char>>, compile_output_path: Seq<char> },
    Run {
        args: Seq<Seq<char>>,
        stdin_path: Seq<char>,
        stdout_path: Seq<char>,
        stderr_path: Seq<char>,
        metadata_path: Seq<char>,
    },
    Store,
    Finish { status: JobStatus },
    Fail,
}

impl View for Event {
    type V = EventView;

    open spec fn view(&self) -> EventView {
        match self {
            Event::Started { now } => EventView::Started { now: *now },
            Event::BoxInitialised { success, root_output } => EventView::BoxInitialised {
                success: *success,
                root_output: root_output@,
            },
            Event::FilesWritten => EventView::FilesWritten,
            Event::Compiled { success, compile_output, isolator_stderr } => EventView::Compiled {
                success: *success,
                compile_output: opt_text(*compile_output),
                isolator_stderr: isolator_stderr@,
            },
            Event::Ran { stdout, stderr, metadata, now } => EventView::Ran {
                stdout: opt_text(*stdout),
                stderr: opt_text(*stderr),
                metadata: opt_text(*metadata),
                now: *now,
            },
            Event::Stored => EventView::Stored,
            Event::Failed => EventView::Failed,
        }
    }
}

impl View for Action {
    type V = ActionView;

    open spec fn view(&self) -> ActionView {
        match self {
            Action::InitBox { args } => ActionView::InitBox { args: views_of(args@) },
            Action::WriteFiles { source_path, stdin_path } => ActionView::WriteFiles {
                source_path: source_path@,
                stdin_path: stdin_path@,
            },
            Action::Compile { args, compile_output_path } => ActionView::Compile {
                args: views_of(args@),
                compile_output_path: compile_output_path@,
            },
            Action::Run { args, stdin_path, stdout_path, stderr_path, metadata_path } => ActionView::Run {
                args: views_of(args@),
                stdin_path: stdin_path@,
                stdout_path: stdout_path@,
                stderr_path: stderr_path@,
                metadata_path: metadata_path@,
            },
            Action::Store => ActionView::Store,
            Action::Finish { status } => ActionView::Finish { status: *status },
            Action::Fail => ActionView::Fail,
        }
    }
}

/// One attempt to run a job in the sandbox.
#[derive(Debug)]
pub struct Execution {
    pub job: Job,
    pub stage: Stage,
    /// The box the attempt runs in.
    pub box_id: u64,
    /// The box's root path, as the isolator gave it.
    pub box_path: String,
    /// The verdict that the attempt finishes with once the record is stored.
    pub verdict: JobStatus,
}

/// The plain values of an `Execution`.
pub struct ExecutionView {
    pub job: JobView,
    pub stage: Stage,
    pub box_id: u64,
    pub box_path: Seq<char>,
    pub verdict: JobStatus,
}

impl View for Execution {
    type V = ExecutionView;

    open spec fn view(&self) -> ExecutionView {
        ExecutionView {
            job: self.job@,
            stage: self.stage,
            box_id: self.box_id,
            box_path: self.box_path@,
            verdict: self.verdict,
        }
    }
}

/// The directory inside a box where the program's files live.
pub open spec fn box_dir(box_path: Seq<char>) -> Seq<char> {
    box_path + "/box"@
}

/// Where the metadata of box `box_id` is read from.
pub open spec fn metadata_read_path_of(box_id: u64) -> Seq<char> {
    "/var/local/lib/isolate/"@ + decimal(box_id as nat) + "/box/metadata"@
}

/// The action that runs the program.
pub open spec fn run_action_of(e: ExecutionView) -> ActionView {
    ActionView::Run {
        args: run_args_of(
            e.box_id,
            box_dir(e.box_path) + "/metadata"@,
            e.job.settings.cpu_time_limit_ms,
            e.job.settings.memory_limit,
            e.job.language.run_cmd,
        ),
        stdin_path: box_dir(e.box_path) + "/stdin"@,
        stdout_path: box_dir(e.box_path) + "/stdout"@,
        stderr_path: box_dir(e.box_path) + "/stderr"@,
        metadata_path: metadata_read_path_of(e.box_id),
    }
}

/// The attempt with its job's status set to `s`, waiting to store the job.
pub open spec fn ending_with(e: ExecutionView, job: JobView, s: JobStatus) -> ExecutionView {
    ExecutionView { job: JobView { status: s, ..job }, stage: Stage::Storing, verdict: s, ..e }
}

/// The attempt's start: the job is marked `Processing` and started now, its earlier result
/// cleared; the box is the job id modulo 2147483647.
pub open spec fn on_started(e: ExecutionView, now: i64) -> (ExecutionView, ActionView) {
    let id = box_id_of(e.job.id);
    (
        ExecutionView {
            job: JobView {
                status: JobStatus::Processing,
                started_at: Some(now),
                finished_at: None,
                output: empty_output(),
                ..e.job
            },
            stage: Stage::Initialising,
            box_id: id,
            box_path: seq![],
            verdict: JobStatus::Queued,
        },
        ActionView::InitBox { args: init_args_of(id) },
    )
}

/// After the box is set up: a failure, or an empty path, is an internal error; else the files
/// are written under the path.
pub open spec fn on_box_initialised(e: ExecutionView, success: bool, stdout: Seq<char>) -> (
    ExecutionView,
    ActionView,
) {
    let path = trimmed(stdout);
    if !success || path.len() == 0 {
        (ending_with(e, e.job, JobStatus::InternalError), ActionView::Store)
    } else {
        (
            ExecutionView { stage: Stage::WritingFiles, box_path: path, ..e },
            ActionView::WriteFiles {
                source_path: box_dir(path) + "/"@ + e.job.language.source_file,
                stdin_path: box_dir(path) + "/stdin"@,
            },
        )
    }
}

/// After the files are written: compile where the language has a compile command, else run.
pub open spec fn on_files_written(e: ExecutionView) -> (ExecutionView, ActionView) {
    match e.job.language.compile_cmd {
        Some(c) => (
            ExecutionView { stage: Stage::Compiling, ..e },
            ActionView::Compile {
                args: compile_args_of(e.box_id, box_dir(e.box_path) + "/metadata"@, e.job.settings.memory_limit, c),
                compile_output_path: box_dir(e.box_path) + "/compile_output"@,
            },
        ),
        None => (ExecutionView { stage: Stage::Running, ..e }, run_action_of(e)),
    }
}

/// After compiling: the compiler's error file is kept as the compile output; where the
/// compiler failed, the compile output is that file or else the isolator's standard error, and
/// the verdict is a compilation error. Else the program runs.
pub open spec fn on_compiled(
    e: ExecutionView,
    success: bool,
    compile_output: Option<Seq<char>>,
    stderr: Seq<char>,
) -> (ExecutionView, ActionView) {
    let kept = match compile_output {
        Some(o) => Some(o),
        None => if success {
            e.job.output.compile_output
        } else {
            Some(stderr)
        },
    };
    let job = JobView { output: JobOutputView { compile_output: kept, ..e.job.output }, ..e.job };
    if !success {
        (ending_with(e, job, JobStatus::CompilationError), ActionView::Store)
    } else {
        let next = ExecutionView { job, stage: Stage::Running, ..e };
        (next, run_action_of(next))
    }
}

} // verus!

verus! {

/// The text of an optional file, empty where the file is missing.
pub open spec fn text_or_empty(o: Option<Seq<char>>) -> Seq<char> {
    match o {
        Some(t) => t,
        None => seq![],
    }
}

/// The finish time: `now`, or the start time where the clock reads earlier.
pub open spec fn finish_time(started_at: Option<i64>, now: i64) -> i64 {
    match started_at {
        Some(s) => if now < s {
            s
        } else {
            now
        },
        None => now,
    }
}

/// After the run: the output files are kept (missing ones as empty). Missing metadata is an
/// internal error; else the job takes the metadata's time, memory, exit code and message, the
/// finish time, and the verdict of `classify`.
pub open spec fn on_ran(
    e: ExecutionView,
    stdout: Option<Seq<char>>,
    stderr: Option<Seq<char>>,
    metadata: Option<Seq<char>>,
    now: i64,
) -> (ExecutionView, ActionView) {
    let out = text_or_empty(stdout);
    let with_files = JobOutputView {
        stdout: Some(out),
        stderr: Some(text_or_empty(stderr)),
        ..e.job.output
    };
    match metadata {
        None => (
            ending_with(e, JobView { output: with_files, ..e.job }, JobStatus::InternalError),
            ActionView::Store,
        ),
        Some(text) => {
            let m = metadata_of(lines_of(text));
            let verdict = classify(m.status, m.exit_code, out, e.job.expected_output);
            let job = JobView {
                finished_at: Some(finish_time(e.job.started_at, now)),
                output: JobOutputView {
                    time_ms: Some(m.time_ms),
                    memory: Some(m.memory),
                    exit_code: Some(m.exit_code),
                    message: Some(m.message),
                    ..with_files
                },
                ..e.job
            };
            (ending_with(e, job, verdict), ActionView::Store)
        },
    }
}

/// The next state of an attempt and what it asks for, after event `ev`. An event that does not
/// fit the stage, or a failure, ends the attempt without a verdict; once over, the attempt
/// stays over.
pub open spec fn next_of(e: ExecutionView, ev: EventView) -> (ExecutionView, ActionView) {
    match (e.stage, ev) {
        (Stage::Done, _) => (e, ActionView::Fail),
        (Stage::Fresh, EventView::Started { now }) => on_started(e, now),
        (Stage::Initialising, EventView::BoxInitialised { success, root_output }) => on_box_initialised(
            e,
            success,
            root_output,
        ),
        (Stage::WritingFiles, EventView::FilesWritten) => on_files_written(e),
        (Stage::Compiling, EventView::Compiled { success, compile_output, isolator_stderr }) => on_compiled(
            e,
            success,
            compile_output,
            isolator_stderr,
        ),
        (Stage::Running, EventView::Ran { stdout, stderr, metadata, now }) => on_ran(
            e,
            stdout,
            stderr,
            metadata,
            now,
        ),
        (Stage::Storing, EventView::Stored) => (
            ExecutionView { stage: Stage::Done, ..e },
            ActionView::Finish { status: e.verdict },
        ),
        _ => (ExecutionView { stage: Stage::Done, ..e }, ActionView::Fail),
    }
}

} // verus!

verus! {

impl Execution {
    /// A fresh attempt on `job`.
    pub fn new(job: Job) -> (r: Execution)
        ensures
            r.job == job,
            r.stage == Stage::Fresh,
            r.box_id == 0,
            r.box_path@.len() == 0,
            r.verdict == JobStatus::Queued,
    {
        Execution {
            job,
            stage: Stage::Fresh,
            box_id: 0,
            box_path: String::new(),
            verdict: JobStatus::Queued,
        }
    }

    fn run_action(&self) -> (r: Action)
        ensures
            r@ == run_action_of(self@),
    {
        let dir = join(self.box_path.as_str(), "/box");
        let metadata_file = join(dir.as_str(), "/metadata");
        let args = run_args(
            self.box_id,
            metadata_file.as_str(),
            self.job.settings.cpu_time_limit_ms,
            self.job.settings.memory_limit,
            self.job.language.run_cmd.as_str(),
        );
        let id = decimal_text(self.box_id as u128);
        let root = join("/var/local/lib/isolate/", id.as_str());
        Action::Run {
            args,
            stdin_path: join(dir.as_str(), "/stdin"),
            stdout_path: join(dir.as_str(), "/stdout"),
            stderr_path: join(dir.as_str(), "/stderr"),
            metadata_path: join(root.as_str(), "/box/metadata"),
        }
    }

    fn end_with(&mut self, s: JobStatus)
        ensures
            final(self)@ == ending_with(old(self)@, old(self)@.job, s),
    {
        self.job.status = s;
        self.stage = Stage::Storing;
        self.verdict = s;
    }

    fn start(&mut self, now: i64) -> (r: Action)
        ensures
            (final(self)@, r@) == on_started(old(self)@, now),
    {
        let id = box_id(self.job.id);
        self.job.status = JobStatus::Processing;
        self.job.started_at = Some(now);
        self.job.finished_at = None;
        self.job.output = JobOutput::default();
        self.stage = Stage::Initialising;
        self.box_id = id;
        self.box_path = String::new();
        self.verdict = JobStatus::Queued;
        Action::InitBox { args: init_args(id) }
    }

    fn box_initialised(&mut self, success: bool, stdout: String) -> (r: Action)
        ensures
            (final(self)@, r@) == on_box_initialised(old(self)@, success, stdout@),
    {
        let path = trim(stdout.as_str());
        if !success || path.unicode_len() == 0 {
            self.end_with(JobStatus::InternalError);
            return Action::Store;
        }
        let root = String::from_str(path);
        let dir = join(root.as_str(), "/box");
        let prefix = join(dir.as_str(), "/");
        let source_path = join(prefix.as_str(), self.job.language.source_file.as_str());
        let stdin_path = join(dir.as_str(), "/stdin");
        self.stage = Stage::WritingFiles;
        self.box_path = root;
        Action::WriteFiles { source_path, stdin_path }
    }

    fn files_written(&mut self) -> (r: Action)
        ensures
            (final(self)@, r@) == on_files_written(old(self)@),
    {
        match &self.job.language.compile_cmd {
            Some(c) => {
                let dir = join(self.box_path.as_str(), "/box");
                let metadata_file = join(dir.as_str(), "/metadata");
                let args = compile_args(
                    self.box_id,
                    metadata_file.as_str(),
                    self.job.settings.memory_limit,
                    c.as_str(),
                );
                let compile_output_path = join(dir.as_str(), "/compile_output");
                self.stage = Stage::Compiling;
                Action::Compile { args, compile_output_path }
            },
            None => {
                self.stage = Stage::Running;
                self.run_action()
            },
        }
    }

    fn compiled(&mut self, success: bool, compile_output: Option<String>, stderr: String) -> (r:
        Action)
        ensures
            (final(self)@, r@) == on_compiled(old(self)@, success, opt_text(compile_output), stderr@),
    {
        match compile_output {
            Some(o) => {
                self.job.output.compile_output = Some(o);
            },
            None => {
                if !success {
                    self.job.output.compile_output = Some(stderr);
                }
            },
        }
        if !success {
            self.end_with(JobStatus::CompilationError);
            Action::Store
        } else {
            self.stage = Stage::Running;
            self.run_action()
        }
    }

    fn ran(
        &mut self,
        stdout: Option<String>,
        stderr: Option<String>,
        metadata: Option<String>,
        now: i64,
    ) -> (r: Action)
        ensures
            (final(self)@, r@) == on_ran(
                old(self)@,
                opt_text(stdout),
                opt_text(stderr),
                opt_text(metadata),
                now,
            ),
    {
        let out = match stdout {
            Some(s) => s,
            None => String::new(),
        };
        let err = match stderr {
            Some(s) => s,
            None => String::new(),
        };
        match metadata {
            None => {
                self.job.output.stdout = Some(out);
                self.job.output.stderr = Some(err);
                self.end_with(JobStatus::InternalError);
            },
            Some(text) => {
                let m = parse_metadata(text.as_str());
                let verdict = determine_status(
                    m.status.as_str(),
                    m.exit_code,
                    out.as_str(),
                    self.job.expected_output.as_str(),
                );
                let finished = match self.job.started_at {
                    Some(s) => if now < s {
                        s
                    } else {
                        now
                    },
                    None => now,
                };
                self.job.finished_at = Some(finished);
                self.job.output.stdout = Some(out);
                self.job.output.stderr = Some(err);
                self.job.output.time_ms = Some(m.time_ms);
                self.job.output.memory = Some(m.memory);
                self.job.output.exit_code = Some(m.exit_code);
                self.job.output.message = Some(m.message);
                self.end_with(verdict);
            },
        }
        Action::Store
    }

    /// Takes in what the outside world reported and says what to do next.
    pub fn step(&mut self, ev: Event) -> (r: Action)
        ensures
            (final(self)@, r@) == next_of(old(self)@, ev@),
    {
        if let Stage::Done = self.stage {
            return Action::Fail;
        }
        match (self.stage, ev) {
            (Stage::Fresh, Event::Started { now }) => self.start(now),
            (Stage::Initialising, Event::BoxInitialised { success, root_output }) => self.box_initialised(
                success,
                root_output,
            ),
            (Stage::WritingFiles, Event::FilesWritten) => self.files_written(),
            (Stage::Compiling, Event::Compiled { success, compile_output, isolator_stderr }) => self.compiled(
                success,
                compile_output,
                isolator_stderr,
            ),
            (Stage::Running, Event::Ran { stdout, stderr, metadata, now }) => self.ran(
                stdout,
                stderr,
                metadata,
                now,
            ),
            (Stage::Storing, Event::Stored) => {
                self.stage = Stage::Done;
                Action::Finish { status: self.verdict }
            },
            _ => {
                self.stage = Stage::Done;
                Action::Fail
            },
        }
    }
}

} // verus!

verus! {

/// Whether an attempt under way has its job's times in order.
pub open spec fn times_kept(e: ExecutionView) -> bool {
    e.stage is Fresh || e.stage is Done || crate::job::times_ordered(e.job)
}

/// Every step keeps the job's start time at or before its finish time once the attempt has
/// started, so a job that finishes with a verdict has `started_at <= finished_at`.
pub proof fn lemma_times_ordered(e: ExecutionView, ev: EventView)
    requires
        times_kept(e),
    ensures
        times_kept(next_of(e, ev).0),
        next_of(e, ev).1 is Finish ==> crate::job::times_ordered(next_of(e, ev).0.job),
{
}

/// The job without what an earlier attempt wrote into it: status, times and output.
pub open spec fn cleared(j: JobView) -> JobView {
    JobView {
        status: JobStatus::Queued,
        started_at: None,
        finished_at: None,
        output: empty_output(),
        ..j
    }
}

/// The actions that an attempt takes, fed the events `evs` in turn.
pub open spec fn run_actions(e: ExecutionView, evs: Seq<EventView>) -> Seq<ActionView>
    decreases evs.len(),
{
    if evs.len() == 0 {
        seq![]
    } else {
        let (n, a) = next_of(e, evs[0]);
        seq![a] + run_actions(n, evs.drop_first())
    }
}

spec fn rerun_related(a: ExecutionView, b: ExecutionView) -> bool {
    a == b || (((a.stage is Fresh && b.stage is Fresh) || (a.stage is Done && b.stage is Done))
        && cleared(a.job) == cleared(b.job))
}

proof fn lemma_rerun_related(a: ExecutionView, b: ExecutionView, evs: Seq<EventView>)
    requires
        rerun_related(a, b),
    ensures
        run_actions(a, evs) == run_actions(b, evs),
    decreases evs.len(),
{
    if evs.len() > 0 {
        let (a2, x) = next_of(a, evs[0]);
        let (b2, y) = next_of(b, evs[0]);
        if a != b {
            assert(a.job.id == b.job.id);
            assert(x == y);
            assert(rerun_related(a2, b2));
        }
        lemma_rerun_related(a2, b2, evs.drop_first());
    }
}

/// Running a job again, after an earlier attempt wrote its status, times and output into it,
/// takes the same actions as the first attempt when the outside world reports the same events,
/// and so ends with the same verdict.
pub proof fn lemma_rerun_same(a: ExecutionView, b: ExecutionView, evs: Seq<EventView>)
    requires
        a.stage is Fresh,
        b.stage is Fresh,
        cleared(a.job) == cleared(b.job),
    ensures
        run_actions(a, evs) == run_actions(b, evs),
{
    lemma_rerun_related(a, b, evs);
}

} // verus!

verus! {

/// Whether an attempt that is under way has no exit code yet: none is set between the start
/// and the run's metadata.
pub open spec fn exit_code_pending(e: ExecutionView) -> bool {
    (e.stage is Initialising || e.stage is WritingFiles || e.stage is Compiling
        || e.stage is Running) ==> e.job.output.exit_code is None
}

/// Every step keeps an attempt's exit code unset until the run, and the run sets it exactly
/// when the sandbox produced metadata.
pub proof fn lemma_exit_code_iff_metadata(e: ExecutionView, ev: EventView)
    requires
        exit_code_pending(e),
    ensures
        exit_code_pending(next_of(e, ev).0),
        ev matches EventView::Ran { metadata, .. } ==> (e.stage is Running ==> (next_of(
            e,
            ev,
        ).0.job.output.exit_code is Some <==> metadata is Some)),
{
}

} // verus!
