use vstd::prelude::*;
use vstd::string::*;
use crate::job::{is_terminal, JobStatus, RuntimeKind};
use crate::text::{same_text, trim, trimmed};

verus! {

/// The runtime error kind of a fatal signal.
pub open spec fn runtime_kind_of(exit_code: i32) -> RuntimeKind {
    if exit_code == 11 {
        RuntimeKind::Sigsegv
    } else if exit_code == 25 {
        RuntimeKind::Sigxfsz
    } else if exit_code == 8 {
        RuntimeKind::Sigfpe
    } else if exit_code == 6 {
        RuntimeKind::Sigabrt
    } else {
        RuntimeKind::Other
    }
}

/// Whether the isolator reported no abnormal end: none of `TO`, `SG`, `RE`, `XX`.
pub open spec fn status_absent(status: Seq<char>) -> bool {
    status != "TO"@ && status != "SG"@ && status != "RE"@ && status != "XX"@
}

/// Whether the output passes: nothing is expected, or it matches once trimmed.
pub open spec fn output_matches(stdout: Seq<char>, expected: Seq<char>) -> bool {
    expected.len() == 0 || trimmed(stdout) == trimmed(expected)
}

/// The verdict on a run from the isolator's status, the exit code or signal, the output and the
/// expected output.
pub open spec fn classify(
    status: Seq<char>,
    exit_code: i32,
    stdout: Seq<char>,
    expected: Seq<char>,
) -> JobStatus {
    if status == "TO"@ {
        JobStatus::TimeLimitExceeded
    } else if status == "SG"@ {
        JobStatus::RuntimeError(runtime_kind_of(exit_code))
    } else if status == "RE"@ {
        JobStatus::RuntimeError(RuntimeKind::Nzec)
    } else if status == "XX"@ {
        JobStatus::InternalError
    } else if output_matches(stdout, expected) {
        JobStatus::Accepted
    } else {
        JobStatus::WrongAnswer
    }
}

/// The runtime error that a fatal signal stands for: 11, 25, 8 and 6 are SIGSEGV, SIGXFSZ,
/// SIGFPE and SIGABRT.
pub fn find_typeof_runtime(exit_code: i32) -> (r: JobStatus)
    ensures
        r == JobStatus::RuntimeError(runtime_kind_of(exit_code)),
{
    let kind = match exit_code {
        11 => RuntimeKind::Sigsegv,
        25 => RuntimeKind::Sigxfsz,
        8 => RuntimeKind::Sigfpe,
        6 => RuntimeKind::Sigabrt,
        _ => RuntimeKind::Other,
    };
    JobStatus::RuntimeError(kind)
}

/// The verdict on a run.
pub fn determine_status(status: &str, exit_code: i32, stdout: &str, expected: &str) -> (r:
    JobStatus)
    ensures
        r == classify(status@, exit_code, stdout@, expected@),
{
    if same_text(status, "TO") {
        JobStatus::TimeLimitExceeded
    } else if same_text(status, "SG") {
        find_typeof_runtime(exit_code)
    } else if same_text(status, "RE") {
        JobStatus::RuntimeError(RuntimeKind::Nzec)
    } else if same_text(status, "XX") {
        JobStatus::InternalError
    } else if expected.unicode_len() == 0 || same_text(trim(stdout), trim(expected)) {
        JobStatus::Accepted
    } else {
        JobStatus::WrongAnswer
    }
}

/// Every verdict is terminal, and a run is never judged a compilation error or an exec
/// format error.
pub proof fn lemma_classify_total(status: Seq<char>, exit_code: i32, stdout: Seq<char>, expected: Seq<char>)
    ensures
        is_terminal(classify(status, exit_code, stdout, expected)),
        !(classify(status, exit_code, stdout, expected) is CompilationError),
        !(classify(status, exit_code, stdout, expected) is ExecFormatError),
{
}

/// Where an output is expected, a run is accepted exactly when the isolator reported no
/// abnormal end and the output matches once trimmed.
pub proof fn lemma_accepted_iff_match(
    status: Seq<char>,
    exit_code: i32,
    stdout: Seq<char>,
    expected: Seq<char>,
)
    requires
        expected.len() > 0,
    ensures
        (classify(status, exit_code, stdout, expected) == JobStatus::Accepted) <==> (status_absent(
            status,
        ) && trimmed(stdout) == trimmed(expected)),
{
}

} // verus!
