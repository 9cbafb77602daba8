use vstd::prelude::*;
use vstd::string::*;
use crate::job::{random_id, status_description, status_id, Job, JobView};
use crate::text::{decimal, decimal_text, opt_text};

verus! {

/// The name of the queue that jobs wait in.
pub fn queue_name() -> (r: &'static str)
    ensures
        r@ == "jobs"@,
{
    "jobs"
}

/// The store key of a job: its id in decimal.
pub fn job_key(id: u64) -> (r: String)
    ensures
        r@ == decimal(id as nat),
{
    decimal_text(id as u128)
}

/// Readies a job for submission: a job without an id (zero) gets a random one. Returns the key
/// it is stored under.
pub fn assign_id(job: &mut Job) -> (r: String)
    ensures
        old(job).id != 0 ==> final(job).id == old(job).id,
        final(job)@ == (JobView { id: final(job).id, ..old(job)@ }),
        r@ == decimal(final(job).id as nat),
{
    if job.id == 0 {
        job.id = random_id();
    }
    job_key(job.id)
}

/// What a check gives for a lookup in the store: the job, or `Job not found`.
pub fn found_job(record: Option<Job>) -> (r: Result<Job, String>)
    ensures
        match record {
            Some(j) => r == Ok::<Job, String>(j),
            None => r matches Err(e) && e@ == "Job not found"@,
        },
{
    match record {
        Some(j) => Ok(j),
        None => Err(String::from_str("Job not found")),
    }
}

/// What a client sees of a job; absent values read as zero or empty.
pub struct CheckView {
    pub started_at: i64,
    pub finished_at: i64,
    pub stdout: String,
    /// CPU time, in milliseconds.
    pub time_ms: u64,
    pub memory: u64,
    pub stderr: String,
    /// The job id.
    pub token: u64,
    pub compile_output: String,
    pub message: String,
    pub status_id: i32,
    pub status_description: String,
}

/// The value of an optional integer, zero where absent.
pub open spec fn or_zero_i64(o: Option<i64>) -> i64 {
    match o {
        Some(v) => v,
        None => 0,
    }
}

/// The text of an optional string, empty where absent.
pub open spec fn or_empty(o: Option<Seq<char>>) -> Seq<char> {
    match o {
        Some(v) => v,
        None => seq![],
    }
}

fn text_or_empty(o: &Option<String>) -> (r: String)
    ensures
        r@ == or_empty(opt_text(*o)),
{
    match o {
        Some(s) => s.clone(),
        None => String::new(),
    }
}

impl Job {
    /// The job as a client sees it.
    pub fn check_view(&self) -> (r: CheckView)
        ensures
            r.started_at == or_zero_i64(self.started_at),
            r.finished_at == or_zero_i64(self.finished_at),
            r.stdout@ == or_empty(self@.output.stdout),
            r.time_ms == match self.output.time_ms {
                Some(t) => t,
                None => 0u64,
            },
            r.memory == match self.output.memory {
                Some(m) => m,
                None => 0u64,
            },
            r.stderr@ == or_empty(self@.output.stderr),
            r.token == self.id,
            r.compile_output@ == or_empty(self@.output.compile_output),
            r.message@ == or_empty(self@.output.message),
            r.status_id == status_id(self.status),
            r.status_description@ == status_description(self.status),
    {
        CheckView {
            started_at: match self.started_at {
                Some(v) => v,
                None => 0,
            },
            finished_at: match self.finished_at {
                Some(v) => v,
                None => 0,
            },
            stdout: text_or_empty(&self.output.stdout),
            time_ms: match self.output.time_ms {
                Some(t) => t,
                None => 0,
            },
            memory: match self.output.memory {
                Some(m) => m,
                None => 0,
            },
            stderr: text_or_empty(&self.output.stderr),
            token: self.id,
            compile_output: text_or_empty(&self.output.compile_output),
            message: text_or_empty(&self.output.message),
            status_id: self.status.id(),
            status_description: self.status.description(),
        }
    }
}

} // verus!
