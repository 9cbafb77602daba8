use vstd::prelude::*;
use vstd::string::*;
use crate::text::{parse_i32, parse_i32_spec, parse_millis, parse_millis_spec, parse_u64, parse_u64_spec, same_text, split_lines, lines_of, opt_text, views_of};

verus! {

broadcast use vstd::seq_lib::group_to_multiset_ensures;

/// Whether `p` is the first colon of `l`.
pub open spec fn is_first_colon(l: Seq<char>, p: int) -> bool {
    0 <= p < l.len() && l[p] == ':' && forall|j: int| 0 <= j < p ==> l[j] != ':'
}

/// Whether `l` holds a colon.
pub open spec fn has_colon(l: Seq<char>) -> bool {
    exists|p: int| is_first_colon(l, p)
}

/// The index of the first colon of `l`.
pub open spec fn first_colon(l: Seq<char>) -> int {
    choose|p: int| is_first_colon(l, p)
}

/// The key of a `key:value` line: the text before its first colon.
pub open spec fn line_key(l: Seq<char>) -> Option<Seq<char>> {
    if has_colon(l) {
        Some(l.take(first_colon(l)))
    } else {
        None
    }
}

/// The value of a `key:value` line: the text after its first colon.
pub open spec fn line_value(l: Seq<char>) -> Seq<char> {
    l.skip(first_colon(l) + 1)
}

/// The value that the last line with key `key` gives it, if any line does.
pub open spec fn field_of(ls: Seq<Seq<char>>, key: Seq<char>) -> Option<Seq<char>>
    decreases ls.len(),
{
    if ls.len() == 0 {
        None
    } else if line_key(ls.last()) == Some(key) {
        Some(line_value(ls.last()))
    } else {
        field_of(ls.drop_last(), key)
    }
}

/// Splits a line at its first colon into key and value.
pub fn split_field(line: &str) -> (r: Option<(String, String)>)
    ensures
        r is None <==> line_key(line@) is None,
        r matches Some((k, v)) ==> line_key(line@) == Some(k@) && line_value(line@) == v@,
{
    let n = line.unicode_len();
    let mut p: usize = 0;
    while p < n && line.get_char(p) != ':'
        invariant
            p <= n == line@.len(),
            forall|j: int| 0 <= j < p ==> line@[j] != ':',
        decreases n - p,
    {
        p = p + 1;
    }
    if p == n {
        return None;
    }
    assert(is_first_colon(line@, p as int));
    assert forall|q: int| is_first_colon(line@, q) implies q == p by {
        if q < p {
            assert(line@[q] != ':');
        } else if q > p {
            assert(line@[p as int] != ':');
        }
    }
    let k = String::from_str(line.substring_char(0, p));
    let v = String::from_str(line.substring_char(p + 1, n));
    assert(line@.subrange(0, p as int) == line@.take(p as int));
    assert(line@.subrange(p + 1, n as int) == line@.skip(p + 1));
    Some((k, v))
}

} // verus!

verus! {

/// What the isolator reports of a run.
pub struct Metadata {
    /// CPU time, in milliseconds.
    pub time_ms: u64,
    /// Peak memory, in kilobytes.
    pub memory: u64,
    pub exit_code: i32,
    pub message: String,
    /// `TO`, `SG`, `RE`, `XX`, or empty where the run ended normally.
    pub status: String,
}

/// The plain values of a `Metadata`.
pub struct MetadataView {
    pub time_ms: u64,
    pub memory: u64,
    pub exit_code: i32,
    pub message: Seq<char>,
    pub status: Seq<char>,
}

impl View for Metadata {
    type V = MetadataView;

    open spec fn view(&self) -> MetadataView {
        MetadataView {
            time_ms: self.time_ms,
            memory: self.memory,
            exit_code: self.exit_code,
            message: self.message@,
            status: self.status@,
        }
    }
}

/// A number read from an optional field; absent or unreadable gives zero.
pub open spec fn u64_or_zero(o: Option<u64>) -> u64 {
    match o {
        Some(v) => v,
        None => 0,
    }
}

/// Peak memory from the lines: `cg-mem` where present, else `max-rss`, else zero.
pub open spec fn memory_of(ls: Seq<Seq<char>>) -> u64 {
    match field_of(ls, "cg-mem"@) {
        Some(v) => u64_or_zero(parse_u64_spec(v)),
        None => match field_of(ls, "max-rss"@) {
            Some(v) => u64_or_zero(parse_u64_spec(v)),
            None => 0,
        },
    }
}

/// What the metadata lines `ls` report.
pub open spec fn metadata_of(ls: Seq<Seq<char>>) -> MetadataView {
    MetadataView {
        time_ms: match field_of(ls, "time"@) {
            Some(v) => u64_or_zero(parse_millis_spec(v)),
            None => 0,
        },
        memory: memory_of(ls),
        exit_code: match field_of(ls, "exitcode"@) {
            Some(v) => match parse_i32_spec(v) {
                Some(x) => x,
                None => 0,
            },
            None => 0,
        },
        message: match field_of(ls, "message"@) {
            Some(v) => v,
            None => seq![],
        },
        status: match field_of(ls, "status"@) {
            Some(v) => v,
            None => seq![],
        },
    }
}

proof fn lemma_field_step(ls: Seq<Seq<char>>, i: int, key: Seq<char>)
    requires
        0 <= i < ls.len(),
    ensures
        field_of(ls.take(i + 1), key) == (if line_key(ls[i]) == Some(key) {
            Some(line_value(ls[i]))
        } else {
            field_of(ls.take(i), key)
        }),
{
    assert(ls.take(i + 1).drop_last() == ls.take(i));
    assert(ls.take(i + 1).last() == ls[i]);
}

/// The value of a field seen so far, updated by one line's key and value.
fn update_field(cur: Option<String>, k: &String, v: &String, key: &str) -> (r: Option<String>)
    ensures
        opt_text(r) == (if k@ == key@ {
            Some(v@)
        } else {
            opt_text(cur)
        }),
{
    if same_text(k.as_str(), key) {
        Some(v.clone())
    } else {
        cur
    }
}

/// Reads the isolator's report from its lines, one `key:value` each. Unknown keys and lines
/// without a colon are ignored; where a key comes twice the later line wins.
pub fn metadata_from_lines(lines: &Vec<String>) -> (r: Metadata)
    ensures
        r@ == metadata_of(views_of(lines@)),
{
    let ghost ls = views_of(lines@);
    let mut time: Option<String> = None;
    let mut max_rss: Option<String> = None;
    let mut cg_mem: Option<String> = None;
    let mut exitcode: Option<String> = None;
    let mut message: Option<String> = None;
    let mut status: Option<String> = None;
    let mut i: usize = 0;
    while i < lines.len()
        invariant
            ls == views_of(lines@),
            i <= lines@.len(),
            opt_text(time) == field_of(ls.take(i as int), "time"@),
            opt_text(max_rss) == field_of(ls.take(i as int), "max-rss"@),
            opt_text(cg_mem) == field_of(ls.take(i as int), "cg-mem"@),
            opt_text(exitcode) == field_of(ls.take(i as int), "exitcode"@),
            opt_text(message) == field_of(ls.take(i as int), "message"@),
            opt_text(status) == field_of(ls.take(i as int), "status"@),
        decreases lines@.len() - i,
    {
        proof {
            lemma_field_step(ls, i as int, "time"@);
            lemma_field_step(ls, i as int, "max-rss"@);
            lemma_field_step(ls, i as int, "cg-mem"@);
            lemma_field_step(ls, i as int, "exitcode"@);
            lemma_field_step(ls, i as int, "message"@);
            lemma_field_step(ls, i as int, "status"@);
        }
        assert(ls[i as int] == lines@[i as int]@);
        match split_field(lines[i].as_str()) {
            Some((k, v)) => {
                time = update_field(time, &k, &v, "time");
                max_rss = update_field(max_rss, &k, &v, "max-rss");
                cg_mem = update_field(cg_mem, &k, &v, "cg-mem");
                exitcode = update_field(exitcode, &k, &v, "exitcode");
                message = update_field(message, &k, &v, "message");
                status = update_field(status, &k, &v, "status");
            },
            None => {},
        }
        i = i + 1;
    }
    assert(ls.take(lines@.len() as int) == ls);
    let time_ms = match &time {
        Some(v) => match parse_millis(v.as_str()) {
            Some(t) => t,
            None => 0,
        },
        None => 0,
    };
    let memory = match &cg_mem {
        Some(v) => match parse_u64(v.as_str()) {
            Some(m) => m,
            None => 0,
        },
        None => match &max_rss {
            Some(v) => match parse_u64(v.as_str()) {
                Some(m) => m,
                None => 0,
            },
            None => 0,
        },
    };
    let exit_code = match &exitcode {
        Some(v) => match parse_i32(v.as_str()) {
            Some(x) => x,
            None => 0,
        },
        None => 0,
    };
    let message = match message {
        Some(v) => v,
        None => String::new(),
    };
    let status = match status {
        Some(v) => v,
        None => String::new(),
    };
    Metadata { time_ms, memory, exit_code, message, status }
}

/// Reads the isolator's metadata file: one `key:value` per line.
pub fn parse_metadata(text: &str) -> (r: Metadata)
    ensures
        r@ == metadata_of(lines_of(text@)),
{
    let lines = split_lines(text);
    metadata_from_lines(&lines)
}

} // verus!

verus! {

/// Whether at most one of the lines `ls` has key `key`.
pub open spec fn key_once(ls: Seq<Seq<char>>, key: Seq<char>) -> bool {
    forall|i: int, j: int|
        0 <= i < ls.len() && 0 <= j < ls.len() && #[trigger] line_key(ls[i]) == Some(key)
            && #[trigger] line_key(ls[j]) == Some(key) ==> i == j
}

/// Whether each key that the report reads comes at most once in `ls`.
pub open spec fn recognised_keys_once(ls: Seq<Seq<char>>) -> bool {
    &&& key_once(ls, "time"@)
    &&& key_once(ls, "max-rss"@)
    &&& key_once(ls, "cg-mem"@)
    &&& key_once(ls, "exitcode"@)
    &&& key_once(ls, "message"@)
    &&& key_once(ls, "status"@)
}

proof fn lemma_field_of_unique(ls: Seq<Seq<char>>, key: Seq<char>)
    requires
        key_once(ls, key),
    ensures
        (field_of(ls, key) is None) <==> (forall|i: int|
            0 <= i < ls.len() ==> line_key(#[trigger] ls[i]) != Some(key)),
        forall|i: int|
            0 <= i < ls.len() && line_key(#[trigger] ls[i]) == Some(key) ==> field_of(ls, key)
                == Some(line_value(ls[i])),
    decreases ls.len(),
{
    if ls.len() > 0 {
        let d = ls.drop_last();
        assert(key_once(d, key)) by {
            assert forall|i: int, j: int|
                0 <= i < d.len() && 0 <= j < d.len() && #[trigger] line_key(d[i]) == Some(key)
                    && #[trigger] line_key(d[j]) == Some(key) implies i == j by {
                assert(d[i] == ls[i] && d[j] == ls[j]);
            }
        }
        lemma_field_of_unique(d, key);
        let n = ls.len() - 1;
        if line_key(ls[n]) == Some(key) {
            assert forall|i: int|
                0 <= i < ls.len() && line_key(#[trigger] ls[i]) == Some(key) implies i == n by {}
        } else {
            assert forall|i: int|
                0 <= i < ls.len() && line_key(#[trigger] ls[i]) == Some(key) implies field_of(
                ls,
                key,
            ) == Some(line_value(ls[i])) by {
                assert(i < n);
                assert(d[i] == ls[i]);
            }
            if field_of(ls, key) is None {
                assert forall|i: int| 0 <= i < ls.len() implies line_key(#[trigger] ls[i]) != Some(
                    key,
                ) by {
                    if i < n {
                        assert(d[i] == ls[i]);
                    }
                }
            }
        }
    }
}

proof fn lemma_field_same(a: Seq<Seq<char>>, b: Seq<Seq<char>>, key: Seq<char>)
    requires
        a.to_multiset() == b.to_multiset(),
        key_once(a, key),
        key_once(b, key),
    ensures
        field_of(a, key) == field_of(b, key),
{
    lemma_field_of_unique(a, key);
    lemma_field_of_unique(b, key);
    if exists|i: int| 0 <= i < a.len() && line_key(#[trigger] a[i]) == Some(key) {
        let i = choose|i: int| 0 <= i < a.len() && line_key(#[trigger] a[i]) == Some(key);
        assert(a.contains(a[i]));
        assert(a.to_multiset().count(a[i]) > 0);
        assert(b.to_multiset().count(a[i]) > 0);
        assert(b.contains(a[i]));
        let j = choose|j: int| 0 <= j < b.len() && b[j] == a[i];
        assert(line_key(b[j]) == Some(key));
    } else if exists|j: int| 0 <= j < b.len() && line_key(#[trigger] b[j]) == Some(key) {
        let j = choose|j: int| 0 <= j < b.len() && line_key(#[trigger] b[j]) == Some(key);
        assert(b.contains(b[j]));
        assert(b.to_multiset().count(b[j]) > 0);
        assert(a.to_multiset().count(b[j]) > 0);
        assert(a.contains(b[j]));
        let i = choose|i: int| 0 <= i < a.len() && a[i] == b[j];
        assert(line_key(a[i]) == Some(key));
    }
}

/// The report does not depend on the order of the lines, where each key that it reads comes
/// at most once.
pub proof fn lemma_metadata_order_free(a: Seq<Seq<char>>, b: Seq<Seq<char>>)
    requires
        a.to_multiset() == b.to_multiset(),
        recognised_keys_once(a),
        recognised_keys_once(b),
    ensures
        metadata_of(a) == metadata_of(b),
{
    lemma_field_same(a, b, "time"@);
    lemma_field_same(a, b, "max-rss"@);
    lemma_field_same(a, b, "cg-mem"@);
    lemma_field_same(a, b, "exitcode"@);
    lemma_field_same(a, b, "message"@);
    lemma_field_same(a, b, "status"@);
}

/// Where both `cg-mem` and `max-rss` are reported, the memory is the one of `cg-mem`.
pub proof fn lemma_cg_mem_wins(ls: Seq<Seq<char>>)
    requires
        field_of(ls, "cg-mem"@) is Some,
        field_of(ls, "max-rss"@) is Some,
    ensures
        metadata_of(ls).memory == u64_or_zero(parse_u64_spec(field_of(ls, "cg-mem"@)->0)),
{
}

} // verus!
