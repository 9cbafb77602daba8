use vstd::prelude::*;
use vstd::string::*;
use crate::metadata::{first_colon, has_colon, line_key, line_value, split_field, u64_or_zero};
use crate::text::{decimal, decimal_text, lines_of, parse_millis, parse_millis_spec, parse_u64, parse_u64_spec, same_text, split_lines, opt_text, trim, trimmed, views_of};

verus! {

/// What can go wrong while judging a query.
#[derive(Clone, Debug)]
pub enum SqlizerError {
    IoError(String),
    DockerError(String),
    OutputMismatch,
}

impl SqlizerError {
    /// A sentence that says what went wrong.
    pub fn message(&self) -> (r: String)
        ensures
            r@ == match self {
                SqlizerError::IoError(e) => "IO error: "@ + e@,
                SqlizerError::DockerError(e) => "Docker error: "@ + e@,
                SqlizerError::OutputMismatch => "Query output did not match expected output"@,
            },
    {
        match self {
            SqlizerError::IoError(e) => {
                let mut s = String::from_str("IO error: ");
                s.append(e.as_str());
                s
            },
            SqlizerError::DockerError(e) => {
                let mut s = String::from_str("Docker error: ");
                s.append(e.as_str());
                s
            },
            SqlizerError::OutputMismatch => String::from_str(
                "Query output did not match expected output",
            ),
        }
    }
}

/// The workspace in which a SQL query is judged.
#[derive(Clone, Debug)]
pub struct Sqlizer {
    /// The query's id modulo 1000.
    pub box_id: u128,
    /// `/tmp/sqlizer/<box_id>`.
    pub sql_dir: String,
}

/// The report on a judged query.
#[derive(Clone, Debug)]
pub struct SqlReport {
    /// User CPU time, in milliseconds.
    pub time_ms: u64,
    /// System CPU time, in milliseconds.
    pub wall_time_ms: u64,
    /// Peak resident memory, in kilobytes.
    pub memory: u64,
    pub std_out: String,
    pub std_err: String,
    pub exit_code: i32,
    pub exit_signal: i32,
    pub message: String,
    pub status: String,
}

/// The text between the first and the second colon of a line, or to its end.
pub open spec fn second_segment(l: Seq<char>) -> Seq<char> {
    let v = line_value(l);
    if has_colon(v) {
        v.take(first_colon(v))
    } else {
        v
    }
}

/// The trimmed value of the last line whose trimmed key is `key`, if any line has it.
pub open spec fn timing_entry(ls: Seq<Seq<char>>, key: Seq<char>) -> Option<Seq<char>>
    decreases ls.len(),
{
    if ls.len() == 0 {
        None
    } else if line_key(ls.last()) matches Some(k) && trimmed(k) == key {
        Some(trimmed(second_segment(ls.last())))
    } else {
        timing_entry(ls.drop_last(), key)
    }
}

/// Milliseconds read from an entry; absent or unreadable gives zero.
pub open spec fn entry_millis(e: Option<Seq<char>>) -> u64 {
    match e {
        Some(v) => u64_or_zero(parse_millis_spec(v)),
        None => 0,
    }
}

impl Sqlizer {
    /// The workspace of query `id`.
    pub fn new(id: u128) -> (r: Sqlizer)
        ensures
            r.box_id == id % 1000,
            r.sql_dir@ == "/tmp/sqlizer/"@ + decimal((id % 1000) as nat),
    {
        let box_id = id % 1000;
        let mut sql_dir = String::from_str("/tmp/sqlizer/");
        let n = decimal_text(box_id);
        sql_dir.append(n.as_str());
        Sqlizer { box_id, sql_dir }
    }

    /// The workspace's name, as in `Sqlizer #7`.
    pub fn name(&self) -> (r: String)
        ensures
            r@ == "Sqlizer #"@ + decimal(self.box_id as nat),
    {
        let mut s = String::from_str("Sqlizer #");
        let n = decimal_text(self.box_id);
        s.append(n.as_str());
        s
    }

    /// Judges a query from the files the container left: the query's output, the reference
    /// output, the error output, and the timing report. The query is correct where its output
    /// equals the reference output.
    pub fn judge(
        user_output: String,
        expected_output: String,
        error_output: String,
        timing: &str,
    ) -> (r: SqlReport)
        ensures
            r.std_out@ == user_output@,
            r.std_err@ == error_output@,
            r.exit_signal == 0,
            user_output@ == expected_output@ ==> r.exit_code == 0 && r.message@ == "Correct"@
                && r.status@ == "Correct"@,
            user_output@ != expected_output@ ==> r.exit_code == 1 && r.message@ == "Incorrect"@
                && r.status@ == "Incorrect"@,
            r.time_ms == entry_millis(timing_entry(lines_of(timing@), "User time (seconds)"@)),
            r.wall_time_ms == entry_millis(
                timing_entry(lines_of(timing@), "System time (seconds)"@),
            ),
            r.memory == match timing_entry(
                lines_of(timing@),
                "Maximum resident set size (kbytes)"@,
            ) {
                Some(v) => u64_or_zero(parse_u64_spec(v)),
                None => 0,
            },
    {
        let correct = user_output == expected_output;
        let lines = split_lines(timing);
        let ghost ls = views_of(lines@);
        let mut user: Option<String> = None;
        let mut system: Option<String> = None;
        let mut rss: Option<String> = None;
        let mut i: usize = 0;
        while i < lines.len()
            invariant
                ls == views_of(lines@),
                ls == lines_of(timing@),
                i <= lines@.len(),
                opt_text(user) == timing_entry(ls.take(i as int), "User time (seconds)"@),
                opt_text(system) == timing_entry(ls.take(i as int), "System time (seconds)"@),
                opt_text(rss) == timing_entry(
                    ls.take(i as int),
                    "Maximum resident set size (kbytes)"@,
                ),
            decreases lines@.len() - i,
        {
            assert(ls.take(i + 1).drop_last() == ls.take(i as int));
            assert(ls.take(i + 1).last() == lines@[i as int]@);
            match split_field(lines[i].as_str()) {
                Some((k, v)) => {
                    let key = trim(k.as_str());
                    let value = second_segment_of(v.as_str());
                    if same_text(key, "User time (seconds)") {
                        user = Some(String::from_str(trim(value.as_str())));
                    }
                    if same_text(key, "System time (seconds)") {
                        system = Some(String::from_str(trim(value.as_str())));
                    }
                    if same_text(key, "Maximum resident set size (kbytes)") {
                        rss = Some(String::from_str(trim(value.as_str())));
                    }
                },
                None => {},
            }
            i = i + 1;
        }
        assert(ls.take(lines@.len() as int) == ls);
        let time_ms = match &user {
            Some(v) => match parse_millis(v.as_str()) {
                Some(t) => t,
                None => 0,
            },
            None => 0,
        };
        let wall_time_ms = match &system {
            Some(v) => match parse_millis(v.as_str()) {
                Some(t) => t,
                None => 0,
            },
            None => 0,
        };
        let memory = match &rss {
            Some(v) => match parse_u64(v.as_str()) {
                Some(m) => m,
                None => 0,
            },
            None => 0,
        };
        let verdict = if correct {
            "Correct"
        } else {
            "Incorrect"
        };
        SqlReport {
            time_ms,
            wall_time_ms,
            memory,
            std_out: user_output,
            std_err: error_output,
            exit_code: if correct {
                0
            } else {
                1
            },
            exit_signal: 0,
            message: String::from_str(verdict),
            status: String::from_str(verdict),
        }
    }
}

/// The text of `v` up to its first colon, or all of it.
fn second_segment_of(v: &str) -> (r: String)
    ensures
        r@ == (if has_colon(v@) {
            v@.take(first_colon(v@))
        } else {
            v@
        }),
{
    match split_field(v) {
        Some((k, _)) => k,
        None => String::from_str(v),
    }
}

} // verus!
