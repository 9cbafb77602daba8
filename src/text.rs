use vstd::prelude::*;
use vstd::string::*;

verus! {

/// Characters with the Unicode `White_Space` property.
pub open spec fn is_white_space(c: char) -> bool {
    let u = c as u32;
    (0x9 <= u && u <= 0xd) || u == 0x20 || u == 0x85 || u == 0xa0 || u == 0x1680 || (0x2000 <= u
        && u <= 0x200a) || u == 0x2028 || u == 0x2029 || u == 0x202f || u == 0x205f || u == 0x3000
}

/// `s` without its leading white space.
pub open spec fn trim_start(s: Seq<char>) -> Seq<char>
    decreases s.len(),
{
    if s.len() > 0 && is_white_space(s[0]) {
        trim_start(s.drop_first())
    } else {
        s
    }
}

/// `s` without its trailing white space.
pub open spec fn trim_end(s: Seq<char>) -> Seq<char>
    decreases s.len(),
{
    if s.len() > 0 && is_white_space(s.last()) {
        trim_end(s.drop_last())
    } else {
        s
    }
}

/// `s` without leading or trailing white space.
pub open spec fn trimmed(s: Seq<char>) -> Seq<char> {
    trim_end(trim_start(s))
}

/// Relies on `str::trim`: the slice without leading and trailing `White_Space` characters.
#[verifier::external_body]
pub(crate) fn trim<'a>(s: &'a str) -> (r: &'a str)
    ensures
        r@ == trimmed(s@),
{
    s.trim()
}

/// Whether two strings hold the same characters.
pub fn same_text(a: &str, b: &str) -> (r: bool)
    ensures
        r == (a@ == b@),
{
    let x = String::from_str(a);
    let y = String::from_str(b);
    x == y
}

} // verus!

verus! {

/// The ASCII digit that stands for `d`, for `d < 10`.
pub open spec fn digit_char(d: nat) -> char {
    ((d + 48) as u8) as char
}

/// Whether `c` is an ASCII digit.
pub open spec fn is_digit(c: char) -> bool {
    48 <= (c as u32) && (c as u32) <= 57
}

/// The value of the ASCII digit `c`.
pub open spec fn digit_value(c: char) -> nat {
    ((c as u32) - 48) as nat
}

/// Whether every character of `s` is an ASCII digit.
pub open spec fn all_digits(s: Seq<char>) -> bool {
    forall|i: int| 0 <= i < s.len() ==> is_digit(#[trigger] s[i])
}

/// The number that the digits `s` write in base ten.
pub open spec fn digits_value(s: Seq<char>) -> nat
    decreases s.len(),
{
    if s.len() == 0 {
        0
    } else {
        digits_value(s.drop_last()) * 10 + digit_value(s.last())
    }
}

/// The decimal text of `n`, without sign or leading zeros.
pub open spec fn decimal(n: nat) -> Seq<char>
    decreases n,
{
    if n < 10 {
        seq![digit_char(n)]
    } else {
        decimal(n / 10).push(digit_char(n % 10))
    }
}

fn digit_text(d: u128) -> (r: &'static str)
    requires
        d < 10,
    ensures
        r@ == seq![digit_char(d as nat)],
{
    proof {
        reveal_strlit("0");
        reveal_strlit("1");
        reveal_strlit("2");
        reveal_strlit("3");
        reveal_strlit("4");
        reveal_strlit("5");
        reveal_strlit("6");
        reveal_strlit("7");
        reveal_strlit("8");
        reveal_strlit("9");
    }
    match d {
        0 => "0",
        1 => "1",
        2 => "2",
        3 => "3",
        4 => "4",
        5 => "5",
        6 => "6",
        7 => "7",
        8 => "8",
        _ => "9",
    }
}

/// The decimal text of `n`.
pub fn decimal_text(n: u128) -> (r: String)
    ensures
        r@ == decimal(n as nat),
    decreases n,
{
    if n < 10 {
        String::from_str(digit_text(n))
    } else {
        let mut s = decimal_text(n / 10);
        s.append(digit_text(n % 10));
        s
    }
}

} // verus!

verus! {

proof fn lemma_digits_value_grows(s: Seq<char>, i: int, j: int)
    requires
        0 <= i <= j <= s.len(),
    ensures
        digits_value(s.take(i)) <= digits_value(s.take(j)),
    decreases j - i,
{
    if i < j {
        lemma_digits_value_grows(s, i, j - 1);
        assert(s.take(j).drop_last() == s.take(j - 1));
    }
}

/// The number written by the digits `s[from..to]`, if they are all digits, at least one, and
/// the number fits in a `u64`.
pub open spec fn digits_u64_spec(s: Seq<char>, from: int, to: int) -> Option<u64> {
    let d = s.subrange(from, to);
    if d.len() > 0 && all_digits(d) && digits_value(d) <= u64::MAX {
        Some(digits_value(d) as u64)
    } else {
        None
    }
}

/// Reads the digits `s[from..to]` as a number.
pub fn digits_u64(s: &str, from: usize, to: usize) -> (r: Option<u64>)
    requires
        from <= to <= s@.len(),
    ensures
        r == digits_u64_spec(s@, from as int, to as int),
{
    let ghost d = s@.subrange(from as int, to as int);
    if from == to {
        return None;
    }
    let mut acc: u64 = 0;
    let mut i: usize = from;
    while i < to
        invariant
            from <= i <= to <= s@.len(),
            d == s@.subrange(from as int, to as int),
            all_digits(d.take(i - from)),
            acc as nat == digits_value(d.take(i - from)),
        decreases to - i,
    {
        let c = s.get_char(i);
        let ghost k = i - from;
        assert(d[k] == c);
        if !('0' <= c && c <= '9') {
            assert(!all_digits(d));
            return None;
        }
        let v = (c as u32 - 48) as u64;
        assert(d.take(k + 1).drop_last() == d.take(k));
        assert(d.take(k + 1).last() == c);
        if acc > (u64::MAX - v) / 10 {
            proof {
                assert(acc * 10 + v > u64::MAX) by (nonlinear_arith)
                    requires
                        acc > (u64::MAX - v) / 10,
                        v <= 9,
                ;
                lemma_digits_value_grows(d, k + 1, d.len() as int);
                assert(d.take(d.len() as int) == d);
            }
            return None;
        }
        acc = acc * 10 + v;
        assert forall|j: int| 0 <= j < k + 1 implies is_digit(#[trigger] d.take(k + 1)[j]) by {
            if j < k {
                assert(d.take(k + 1)[j] == d.take(k)[j]);
            }
        }
        i = i + 1;
    }
    assert(d.take(to - from) == d);
    Some(acc)
}

/// The value of `s` read as an unsigned decimal integer: an optional `+`, then digits.
pub open spec fn parse_u64_spec(s: Seq<char>) -> Option<u64> {
    if s.len() > 0 && s[0] == '+' {
        digits_u64_spec(s, 1, s.len() as int)
    } else {
        digits_u64_spec(s, 0, s.len() as int)
    }
}

/// Reads an unsigned decimal integer: an optional `+`, then one or more digits.
pub fn parse_u64(s: &str) -> (r: Option<u64>)
    ensures
        r == parse_u64_spec(s@),
{
    let n = s.unicode_len();
    if n > 0 && s.get_char(0) == '+' {
        digits_u64(s, 1, n)
    } else {
        digits_u64(s, 0, n)
    }
}

/// The value of `s` read as a signed decimal integer: an optional `+` or `-`, then digits,
/// within the range of `i32`.
pub open spec fn parse_i32_spec(s: Seq<char>) -> Option<i32> {
    let signed = s.len() > 0 && (s[0] == '+' || s[0] == '-');
    let d = if signed {
        s.drop_first()
    } else {
        s
    };
    let v = digits_value(d) as int;
    let x = if s.len() > 0 && s[0] == '-' {
        -v
    } else {
        v
    };
    if d.len() > 0 && all_digits(d) && i32::MIN <= x <= i32::MAX {
        Some(x as i32)
    } else {
        None
    }
}

/// Reads a signed decimal integer: an optional `+` or `-`, then one or more digits.
pub fn parse_i32(s: &str) -> (r: Option<i32>)
    ensures
        r == parse_i32_spec(s@),
{
    let n = s.unicode_len();
    let first = if n > 0 {
        s.get_char(0)
    } else {
        ' '
    };
    let signed = n > 0 && (first == '+' || first == '-');
    let start: usize = if signed {
        1
    } else {
        0
    };
    let ghost d = s@.subrange(start as int, n as int);
    assert(signed ==> d == s@.drop_first());
    assert(!signed ==> d == s@);
    match digits_u64(s, start, n) {
        None => {
            None
        },
        Some(v) => {
            if first == '-' && n > 0 {
                if v <= 2147483648 {
                    Some((0 - (v as i64)) as i32)
                } else {
                    None
                }
            } else {
                if v <= 2147483647 {
                    Some(v as i32)
                } else {
                    None
                }
            }
        },
    }
}

} // verus!

verus! {

/// Thousandths written by the fraction digits `f`: the first three, padded with zeros.
pub open spec fn fraction_millis(f: Seq<char>) -> nat {
    if f.len() >= 3 {
        digits_value(f.take(3))
    } else if f.len() == 2 {
        digits_value(f) * 10
    } else if f.len() == 1 {
        digits_value(f) * 100
    } else {
        0
    }
}

/// Whether `p` splits `s` into whole digits, a `.`, and fraction digits.
pub open spec fn is_decimal_point(s: Seq<char>, p: int) -> bool {
    0 < p < s.len() - 1 && s[p] == '.' && all_digits(s.take(p)) && all_digits(s.skip(p + 1))
}

/// Milliseconds written by a count of seconds `s`: digits, optionally followed by `.` and
/// more digits; fraction digits past the third are dropped.
pub open spec fn seconds_millis(s: Seq<char>) -> Option<nat> {
    if s.len() > 0 && all_digits(s) {
        Some(digits_value(s) * 1000)
    } else if exists|p: int| is_decimal_point(s, p) {
        let p = choose|p: int| is_decimal_point(s, p);
        Some(digits_value(s.take(p)) * 1000 + fraction_millis(s.skip(p + 1)))
    } else {
        None
    }
}

/// `seconds_millis(s)` where it fits in a `u64`.
pub open spec fn parse_millis_spec(s: Seq<char>) -> Option<u64> {
    match seconds_millis(s) {
        Some(v) => if v <= u64::MAX {
            Some(v as u64)
        } else {
            None
        },
        None => None,
    }
}

/// Whether `s[from..to]` is all digits.
fn digits_only(s: &str, from: usize, to: usize) -> (r: bool)
    requires
        from <= to <= s@.len(),
    ensures
        r == all_digits(s@.subrange(from as int, to as int)),
{
    let ghost d = s@.subrange(from as int, to as int);
    let mut i: usize = from;
    while i < to
        invariant
            from <= i <= to <= s@.len(),
            d == s@.subrange(from as int, to as int),
            forall|j: int| 0 <= j < i - from ==> is_digit(#[trigger] d[j]),
        decreases to - i,
    {
        let c = s.get_char(i);
        assert(d[i - from] == c);
        if !('0' <= c && c <= '9') {
            return false;
        }
        i = i + 1;
    }
    true
}

/// Reads a count of seconds with an optional fraction as milliseconds.
pub fn parse_millis(s: &str) -> (r: Option<u64>)
    ensures
        r == parse_millis_spec(s@),
{
    let n = s.unicode_len();
    let mut p: usize = 0;
    while p < n && s.get_char(p) != '.'
        invariant
            p <= n == s@.len(),
            forall|j: int| 0 <= j < p ==> s@[j] != '.',
        decreases n - p,
    {
        p = p + 1;
    }
    if p == n {
        assert(s@.subrange(0, n as int) == s@);
        if n == 0 || !digits_only(s, 0, n) {
            assert(forall|q: int| !is_decimal_point(s@, q));
            return None;
        }
        match digits_u64(s, 0, n) {
            None => None,
            Some(v) => if v <= u64::MAX / 1000 {
                Some(v * 1000)
            } else {
                None
            },
        }
    } else {
        let ghost sv = s@;
        assert(sv.subrange(0, p as int) == sv.take(p as int));
        assert(sv.subrange(p + 1, n as int) == sv.skip(p + 1));
        if n == 0 || p == 0 || p + 1 == n || !digits_only(s, 0, p) || !digits_only(s, p + 1, n) {
            assert(!(sv.len() > 0 && all_digits(sv))) by {
                if sv.len() > 0 && all_digits(sv) {
                    assert(is_digit(sv[p as int]));
                }
            }
            assert forall|q: int| !is_decimal_point(sv, q) by {
                if is_decimal_point(sv, q) {
                    if q < p {
                        assert(sv[q] != '.');
                    } else if q > p {
                        assert(sv.take(q)[p as int] == sv[p as int]);
                        assert(is_digit(sv.take(q)[p as int]));
                    }
                }
            }
            return None;
        }
        assert(!all_digits(sv)) by {
            assert(!is_digit(sv[p as int]));
        }
        assert(is_decimal_point(sv, p as int));
        assert forall|q: int| is_decimal_point(sv, q) implies q == p by {
            if q < p {
                assert(sv[q] != '.');
            } else if q > p {
                assert(sv.take(q)[p as int] == sv[p as int]);
                assert(is_digit(sv.take(q)[p as int]));
            }
        }
        let whole = digits_u64(s, 0, p);
        let k: usize = if n - (p + 1) >= 3 {
            3
        } else {
            n - (p + 1)
        };
        let frac = digits_u64(s, p + 1, p + 1 + k);
        let ghost f = sv.skip(p + 1);
        assert(sv.subrange(p + 1, p + 1 + k) == f.take(k as int));
        assert(k == f.len() ==> f.take(k as int) == f);
        assert(all_digits(f.take(k as int)));
        assert(digits_value(f.take(k as int)) <= 999) by {
            lemma_digits_below(f.take(k as int));
        }
        match (whole, frac) {
            (Some(w), Some(fr)) => {
                let scaled: u64 = if k == 3 {
                    fr
                } else if k == 2 {
                    fr * 10
                } else {
                    fr * 100
                };
                if w <= (u64::MAX - scaled) / 1000 {
                    Some(w * 1000 + scaled)
                } else {
                    None
                }
            },
            _ => None,
        }
    }
}

proof fn lemma_digits_below(d: Seq<char>)
    requires
        all_digits(d),
        d.len() <= 3,
    ensures
        digits_value(d) < pow10(d.len()),
    decreases d.len(),
{
    if d.len() > 0 {
        assert(all_digits(d.drop_last())) by {
            assert forall|i: int| 0 <= i < d.drop_last().len() implies is_digit(
                #[trigger] d.drop_last()[i],
            ) by {
                assert(d.drop_last()[i] == d[i]);
            }
        }
        lemma_digits_below(d.drop_last());
        assert(is_digit(d[d.len() - 1]));
    }
}

/// Ten to the power `n`, for small `n`.
spec fn pow10(n: nat) -> nat {
    if n == 0 {
        1
    } else if n == 1 {
        10
    } else if n == 2 {
        100
    } else {
        1000
    }
}

} // verus!

verus! {

/// `l` without one trailing carriage return.
pub open spec fn strip_cr(l: Seq<char>) -> Seq<char> {
    if l.len() > 0 && l.last() == '\r' {
        l.drop_last()
    } else {
        l
    }
}

/// The lines ended so far in `s`, and the text after the last line feed.
pub open spec fn lines_acc(s: Seq<char>) -> (Seq<Seq<char>>, Seq<char>)
    decreases s.len(),
{
    if s.len() == 0 {
        (seq![], seq![])
    } else {
        let (done, cur) = lines_acc(s.drop_last());
        if s.last() == '\n' {
            (done.push(strip_cr(cur)), seq![])
        } else {
            (done, cur.push(s.last()))
        }
    }
}

/// The lines of `s`: split at each line feed, a carriage return before it dropped, and the
/// final line kept only where it is not empty.
pub open spec fn lines_of(s: Seq<char>) -> Seq<Seq<char>> {
    let (done, cur) = lines_acc(s);
    if cur.len() == 0 {
        done
    } else {
        done.push(cur)
    }
}

/// The views of an optional string.
pub open spec fn opt_text(o: Option<String>) -> Option<Seq<char>> {
    match o {
        Some(s) => Some(s@),
        None => None,
    }
}

/// The views of a vector of strings.
pub open spec fn views_of(v: Seq<String>) -> Seq<Seq<char>> {
    v.map_values(|l: String| l@)
}

/// Splits `s` into its lines.
pub fn split_lines(s: &str) -> (r: Vec<String>)
    ensures
        views_of(r@) == lines_of(s@),
{
    let n = s.unicode_len();
    let mut done: Vec<String> = Vec::new();
    let mut start: usize = 0;
    let mut i: usize = 0;
    while i < n
        invariant
            n == s@.len(),
            start <= i <= n,
            lines_acc(s@.take(i as int)) == (views_of(done@), s@.subrange(start as int, i as int)),
        decreases n - i,
    {
        let c = s.get_char(i);
        let ghost prev = s@.take(i as int);
        assert(s@.take(i + 1).drop_last() == prev);
        assert(s@.take(i + 1).last() == c);
        if c == '\n' {
            let ghost cur = s@.subrange(start as int, i as int);
            let end: usize = if i > start && s.get_char(i - 1) == '\r' {
                i - 1
            } else {
                i
            };
            assert(cur.len() > 0 ==> cur.last() == s@[i - 1]);
            assert(end < i ==> cur.drop_last() == s@.subrange(start as int, end as int));
            let line = String::from_str(s.substring_char(start, end));
            done.push(line);
            assert(views_of(done@) == views_of(done@.drop_last()).push(line@));
            start = i + 1;
        } else {
            assert(s@.subrange(start as int, i + 1) == s@.subrange(start as int, i as int).push(c));
        }
        i = i + 1;
    }
    assert(s@.take(n as int) == s@);
    let ghost cur = s@.subrange(start as int, n as int);
    if start < n {
        let line = String::from_str(s.substring_char(start, n));
        done.push(line);
        assert(views_of(done@) == views_of(done@.drop_last()).push(line@));
    }
    done
}

} // verus!
