use vstd::prelude::*;
use vstd::string::*;
use crate::text::{decimal, decimal_text, digit_char, views_of};

verus! {

/// The largest prime below 2^31; job ids are reduced modulo it to name a box.
pub const BOX_MODULUS: u64 = 2147483647;

/// The sandbox box number that a job id maps to.
pub open spec fn box_id_of(job_id: u64) -> u64 {
    (job_id % BOX_MODULUS) as u64
}

/// Box number for a job id.
pub fn box_id(job_id: u64) -> (r: u64)
    ensures
        r == box_id_of(job_id),
        r == job_id % 2147483647,
        r < BOX_MODULUS,
{
    job_id % BOX_MODULUS
}

/// `a` followed by `b`.
pub fn join(a: &str, b: &str) -> (r: String)
    ensures
        r@ == a@ + b@,
{
    let mut s = String::from_str(a);
    s.append(b);
    s
}

fn push_text(v: &mut Vec<String>, s: &str)
    ensures
        views_of(final(v)@) == views_of(old(v)@).push(s@),
{
    v.push(String::from_str(s));
    assert(views_of(v@) =~= views_of(old(v)@).push(s@));
}

/// The isolator arguments that set up box `box_id`.
pub open spec fn init_args_of(box_id: u64) -> Seq<Seq<char>> {
    seq!["--cg"@, "--init"@, "-b"@, decimal(box_id as nat)]
}

/// The isolator arguments that tear down box `box_id`.
pub open spec fn cleanup_args_of(box_id: u64) -> Seq<Seq<char>> {
    seq!["--cg"@, "-b"@, decimal(box_id as nat), "--cleanup"@]
}

/// Arguments for setting up a box.
pub fn init_args(box_id: u64) -> (r: Vec<String>)
    ensures
        views_of(r@) == init_args_of(box_id),
{
    let mut v: Vec<String> = Vec::new();
    push_text(&mut v, "--cg");
    push_text(&mut v, "--init");
    push_text(&mut v, "-b");
    let id = decimal_text(box_id as u128);
    push_text(&mut v, id.as_str());
    assert(views_of(v@) =~= init_args_of(box_id));
    v
}

/// Arguments for tearing down a box.
pub fn cleanup_args(box_id: u64) -> (r: Vec<String>)
    ensures
        views_of(r@) == cleanup_args_of(box_id),
{
    let mut v: Vec<String> = Vec::new();
    push_text(&mut v, "--cg");
    push_text(&mut v, "-b");
    let id = decimal_text(box_id as u128);
    push_text(&mut v, id.as_str());
    push_text(&mut v, "--cleanup");
    assert(views_of(v@) =~= cleanup_args_of(box_id));
    v
}

/// The search path that commands in the box see.
pub open spec fn path_setting() -> Seq<char> {
    "PATH=\"/usr/local/sbin:/usr/local/bin:/usr/sbin:/usr/bin:/sbin:/bin\""@
}

/// A count of milliseconds as seconds with three decimals, as in `2.500`.
pub open spec fn seconds_text(ms: u64) -> Seq<char> {
    let f = (ms % 1000) as nat;
    decimal((ms / 1000) as nat) + seq!['.', digit_char(f / 100), digit_char((f / 10) % 10), digit_char(f % 10)]
}

/// Milliseconds written as seconds.
pub fn seconds(ms: u64) -> (r: String)
    ensures
        r@ == seconds_text(ms),
{
    let f = ms % 1000;
    let mut s = decimal_text((ms / 1000) as u128);
    s.append(".");
    let a = decimal_text((f / 100) as u128);
    let b = decimal_text(((f / 10) % 10) as u128);
    let c = decimal_text((f % 10) as u128);
    s.append(a.as_str());
    s.append(b.as_str());
    s.append(c.as_str());
    proof {
        reveal_strlit(".");
        reveal_with_fuel(decimal, 1);
    }
    assert(s@ =~= seconds_text(ms));
    s
}

/// The isolator arguments that run `command` in box `box_id` under the limits that compiling
/// and running share, with `cpu` seconds of CPU, a stack of `stack` kilobytes, and `extra`
/// ahead of the memory option.
pub open spec fn sandbox_args_of(
    box_id: u64,
    metadata_file: Seq<char>,
    cpu: Seq<char>,
    stack: Seq<char>,
    extra: Seq<Seq<char>>,
    memory_limit: u64,
    command: Seq<char>,
) -> Seq<Seq<char>> {
    seq![
        "--cg"@,
        "-b"@,
        decimal(box_id as nat),
        "-M"@,
        metadata_file,
        "--process=60"@,
        "-t"@,
        cpu,
        "-x"@,
        "0"@,
        "-w"@,
        "10"@,
        "-k"@,
        stack,
    ] + extra + seq![
        "--cg-mem="@ + decimal(memory_limit as nat),
        "-E"@,
        path_setting(),
        "-E"@,
        "HOME=/tmp"@,
        "-d"@,
        "/etc:noexec"@,
        "--run"@,
        "--"@,
        "/usr/bin/sh"@,
        "-c"@,
        command,
    ]
}

/// The isolator arguments that compile with `compile_cmd`: 5 s of CPU, a 12800 KB stack, files
/// up to 1024 KB, the compiler's errors in `/box/compile_output`.
pub open spec fn compile_args_of(
    box_id: u64,
    metadata_file: Seq<char>,
    memory_limit: u64,
    compile_cmd: Seq<char>,
) -> Seq<Seq<char>> {
    sandbox_args_of(
        box_id,
        metadata_file,
        "5"@,
        "12800"@,
        seq!["-f"@, "1024"@],
        memory_limit,
        compile_cmd + " 2> /box/compile_output"@,
    )
}

/// The isolator arguments that run `run_cmd` with the job's CPU time, a 128000 KB stack, the
/// output in `/box/stdout` and `/box/stderr`.
pub open spec fn run_args_of(
    box_id: u64,
    metadata_file: Seq<char>,
    cpu_time_limit_ms: u64,
    memory_limit: u64,
    run_cmd: Seq<char>,
) -> Seq<Seq<char>> {
    sandbox_args_of(
        box_id,
        metadata_file,
        seconds_text(cpu_time_limit_ms),
        "128000"@,
        seq![],
        memory_limit,
        run_cmd + " > /box/stdout 2> /box/stderr"@,
    )
}

fn sandbox_args(
    box_id: u64,
    metadata_file: &str,
    cpu: &str,
    stack: &str,
    with_file_limit: bool,
    memory_limit: u64,
    command: &str,
) -> (r: Vec<String>)
    ensures
        views_of(r@) == sandbox_args_of(
            box_id,
            metadata_file@,
            cpu@,
            stack@,
            if with_file_limit {
                seq!["-f"@, "1024"@]
            } else {
                seq![]
            },
            memory_limit,
            command@,
        ),
{
    let mut v: Vec<String> = Vec::new();
    push_text(&mut v, "--cg");
    push_text(&mut v, "-b");
    let id = decimal_text(box_id as u128);
    push_text(&mut v, id.as_str());
    push_text(&mut v, "-M");
    push_text(&mut v, metadata_file);
    push_text(&mut v, "--process=60");
    push_text(&mut v, "-t");
    push_text(&mut v, cpu);
    push_text(&mut v, "-x");
    push_text(&mut v, "0");
    push_text(&mut v, "-w");
    push_text(&mut v, "10");
    push_text(&mut v, "-k");
    push_text(&mut v, stack);
    if with_file_limit {
        push_text(&mut v, "-f");
        push_text(&mut v, "1024");
    }
    let mem = decimal_text(memory_limit as u128);
    let mem_arg = join("--cg-mem=", mem.as_str());
    push_text(&mut v, mem_arg.as_str());
    push_text(&mut v, "-E");
    push_text(&mut v, "PATH=\"/usr/local/sbin:/usr/local/bin:/usr/sbin:/usr/bin:/sbin:/bin\"");
    push_text(&mut v, "-E");
    push_text(&mut v, "HOME=/tmp");
    push_text(&mut v, "-d");
    push_text(&mut v, "/etc:noexec");
    push_text(&mut v, "--run");
    push_text(&mut v, "--");
    push_text(&mut v, "/usr/bin/sh");
    push_text(&mut v, "-c");
    push_text(&mut v, command);
    let ghost core = if with_file_limit {
        seq!["-f"@, "1024"@]
    } else {
        seq![]
    };
    assert(views_of(v@) =~= sandbox_args_of(
        box_id,
        metadata_file@,
        cpu@,
        stack@,
        core,
        memory_limit,
        command@,
    ));
    v
}

/// Arguments for compiling in a box.
pub fn compile_args(box_id: u64, metadata_file: &str, memory_limit: u64, compile_cmd: &str) -> (r:
    Vec<String>)
    ensures
        views_of(r@) == compile_args_of(box_id, metadata_file@, memory_limit, compile_cmd@),
{
    let command = join(compile_cmd, " 2> /box/compile_output");
    sandbox_args(box_id, metadata_file, "5", "12800", true, memory_limit, command.as_str())
}

/// Arguments for running a program in a box.
pub fn run_args(
    box_id: u64,
    metadata_file: &str,
    cpu_time_limit_ms: u64,
    memory_limit: u64,
    run_cmd: &str,
) -> (r: Vec<String>)
    ensures
        views_of(r@) == run_args_of(box_id, metadata_file@, cpu_time_limit_ms, memory_limit, run_cmd@),
{
    let command = join(run_cmd, " > /box/stdout 2> /box/stderr");
    let cpu = seconds(cpu_time_limit_ms);
    sandbox_args(box_id, metadata_file, cpu.as_str(), "128000", false, memory_limit, command.as_str())
}

} // verus!
