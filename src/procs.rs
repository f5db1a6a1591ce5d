//! Process lists printed by the vendor tools and the kernel.
use vstd::prelude::*;
use crate::scan::{lemma_run_class, at, char_vec, digits_u64, digits_value, is_digit, is_word, lines_from, matches_at, run_end, skip_run, split_lines, CharClass};

verus! {

broadcast use vstd::string::group_string_axioms;

/// The start of `l` without leading blanks.
pub open spec fn trim_start(l: Seq<char>) -> int {
    run_end(l, 0, CharClass::Space)
}

/// The end of `l` without trailing blanks.
pub open spec fn trim_end(l: Seq<char>, lo: int) -> int
    decreases l.len(),
{
    if l.len() == 0 || l.len() <= lo || !crate::scan::is_space(l.last()) {
        l.len() as int
    } else {
        trim_end(l.drop_last(), lo)
    }
}

/// The process id a line holds: optional blanks, an optional `+`, decimal
/// digits that fit in 32 bits, optional blanks, nothing else.
pub open spec fn pid_of_line(l: Seq<char>) -> Option<u32> {
    let a = trim_start(l);
    let b = trim_end(l, a);
    let d = if a < b && l[a] == '+' { a + 1 } else { a };
    let e = run_end(l, d, CharClass::Digit);
    if e > d && e == b && digits_value(l.subrange(d, e)) <= u32::MAX {
        Some(digits_value(l.subrange(d, e)) as u32)
    } else {
        None
    }
}

/// The process ids of a listing, one per line, skipping lines that hold none.
pub open spec fn pids_of_lines(lines: Seq<Seq<char>>) -> Seq<u32>
    decreases lines.len(),
{
    if lines.len() == 0 {
        Seq::empty()
    } else {
        pids_of_lines(lines.drop_last()) + match pid_of_line(lines.last()) {
            Some(p) => seq![p],
            None => Seq::empty(),
        }
    }
}

proof fn lemma_trim_end_bounds(l: Seq<char>, lo: int)
    requires
        0 <= lo <= l.len(),
    ensures
        lo <= trim_end(l, lo) <= l.len(),
        trim_end(l, lo) == l.len() || (trim_end(l, lo) < l.len() && crate::scan::is_space(l[trim_end(l, lo)])),
        forall|i: int| trim_end(l, lo) <= i < l.len() ==> crate::scan::is_space(#[trigger] l[i]),
    decreases l.len(),
{
    if !(l.len() == 0 || l.len() <= lo || !crate::scan::is_space(l.last())) {
        let d = l.drop_last();
        lemma_trim_end_bounds(d, lo);
        assert forall|i: int| trim_end(l, lo) <= i < l.len() implies crate::scan::is_space(#[trigger] l[i]) by {
            if i < d.len() {
                assert(d[i] == l[i]);
            }
        }
    }
}

fn trim_end_exec(l: &Vec<char>, lo: usize) -> (r: usize)
    requires
        lo <= l@.len(),
    ensures
        r == trim_end(l@, lo as int),
        lo <= r <= l@.len(),
{
    let mut b = l.len();
    assert(l@.subrange(0, l@.len() as int) =~= l@);
    while b > lo && class_is_space(l[b - 1])
        invariant
            lo <= b <= l@.len(),
            trim_end(l@, lo as int) == trim_end(l@.subrange(0, b as int), lo as int),
        decreases b,
    {
        let ghost t = l@.subrange(0, b as int);
        assert(t.drop_last() =~= l@.subrange(0, b - 1));
        assert(t.last() == l@[b - 1]);
        b = b - 1;
    }
    assert(l@.subrange(0, l@.len() as int) =~= l@);
    proof {
        let t = l@.subrange(0, b as int);
        assert(t.len() == b);
        if b > lo {
            assert(t.last() == l@[b - 1]);
        }
    }
    b
}

fn class_is_space(c: char) -> (r: bool)
    ensures
        r == crate::scan::is_space(c),
{
    crate::scan::class_has(CharClass::Space, c)
}

fn pid_of_line_exec(l: &Vec<char>) -> (r: Option<u32>)
    ensures
        r == pid_of_line(l@),
{
    let a = skip_run(l, 0, CharClass::Space);
    let b = trim_end_exec(l, a);
    let d = if a < b && l[a] == '+' { a + 1 } else { a };
    let e = skip_run(l, d, CharClass::Digit);
    if !(e > d && e == b) {
        return None;
    }
    proof {
        assert forall|i: int| d <= i < e implies is_digit(#[trigger] l@[i]) by {
            lemma_run_class(l@, d as int, i, CharClass::Digit);
        }
    }
    match digits_u64(l, d, e) {
        Some(v) => if v <= u32::MAX as u64 { Some(v as u32) } else { None },
        None => None,
    }
}

/// The process ids of a listing with one id per line.
pub fn parse_pid_lines(text: &str) -> (r: Vec<u32>)
    ensures
        r@ == pids_of_lines(lines_from(text@, 0)),
{
    let s = char_vec(text);
    let lines = split_lines(&s);
    let ghost ls = lines@.map_values(|l: Vec<char>| l@);
    let mut out: Vec<u32> = Vec::new();
    let mut i: usize = 0;
    while i < lines.len()
        invariant
            i <= lines@.len(),
            ls == lines@.map_values(|l: Vec<char>| l@),
            ls == lines_from(text@, 0),
            out@ == pids_of_lines(ls.take(i as int)),
        decreases lines@.len() - i,
    {
        assert(ls.take(i + 1).drop_last() =~= ls.take(i as int));
        assert(ls.take(i + 1).last() == lines@[i as int]@);
        match pid_of_line_exec(&lines[i]) {
            Some(p) => {
                out.push(p);
            },
            None => {},
        }
        assert(out@ =~= pids_of_lines(ls.take(i + 1)));
        i = i + 1;
    }
    assert(ls.take(lines@.len() as int) =~= ls);
    out
}

/// The `n`-th blank-separated field of `s` from position `p` (counting from 0).
pub open spec fn field_from(s: Seq<char>, p: int, n: nat) -> Option<Seq<char>>
    decreases n,
{
    let a = run_end(s, p, CharClass::Space);
    let b = run_end(s, a, CharClass::NonSpace);
    if p < 0 || a >= s.len() || b <= a || b > s.len() {
        None
    } else if n == 0 {
        Some(s.subrange(a, b))
    } else {
        field_from(s, b, (n - 1) as nat)
    }
}

/// Whether a `/proc/<pid>/stat` line shows the process in uninterruptible
/// sleep: its third field is `D`.
pub fn in_uninterruptible_sleep(stat: &str) -> (r: bool)
    ensures
        r == (field_from(stat@, 0, 2) == Some(seq!['D'])),
{
    let s = char_vec(stat);
    let mut p: usize = 0;
    let mut n: usize = 0;
    loop
        invariant
            s@ == stat@,
            p <= s@.len(),
            n <= 2,
            field_from(s@, 0, 2) == field_from(s@, p as int, (2 - n) as nat),
        decreases 3 - n,
    {
        let a = skip_run(&s, p, CharClass::Space);
        let b = skip_run(&s, a, CharClass::NonSpace);
        if a >= s.len() || b <= a {
            return false;
        }
        if n == 2 {
            let is_d = b == a + 1 && s[a] == 'D';
            proof {
                let f = s@.subrange(a as int, b as int);
                if is_d {
                    assert(f =~= seq!['D']);
                } else if f.len() == 1 {
                    assert(f[0] == s@[a as int]);
                }
            }
            return is_d;
        }
        p = b;
        n = n + 1;
    }
}

/// The process ids that `npu-smi info -t usages` reports: each `PID` that
/// starts a word, followed by colons or blanks and digits; ids that do not
/// fit in 32 bits are skipped.
pub open spec fn usage_pid_at(s: Seq<char>, p: int) -> Option<(int, Option<u32>)> {
    let c = run_end(s, p + "PID"@.len(), CharClass::ColonOrSpace);
    let d = run_end(s, c, CharClass::Digit);
    if at(s, p, "PID"@) && (p == 0 || (0 < p <= s.len() && !is_word(s[p - 1]))) && c > p + "PID"@.len() && d > c {
        let v = digits_value(s.subrange(c, d));
        Some((d, if v <= u32::MAX { Some(v as u32) } else { None }))
    } else {
        None
    }
}

/// The ids found from position `p` on.
pub open spec fn usage_pids_from(s: Seq<char>, p: int) -> Seq<u32>
    decreases s.len() - p,
{
    if p < 0 || p >= s.len() {
        Seq::empty()
    } else {
        match usage_pid_at(s, p) {
            Some((e, c)) => if p < e <= s.len() {
                (match c {
                    Some(v) => seq![v],
                    None => Seq::empty(),
                }) + usage_pids_from(s, e)
            } else {
                Seq::empty()
            },
            None => usage_pids_from(s, p + 1),
        }
    }
}

/// The process ids in the output of `npu-smi info -t usages`, in order.
pub fn parse_usage_pids(text: &str) -> (r: Vec<u32>)
    ensures
        r@ == usage_pids_from(text@, 0),
{
    let s = char_vec(text);
    let key = char_vec("PID");
    let n = s.len();
    let mut out: Vec<u32> = Vec::new();
    let mut p: usize = 0;
    while p < s.len()
        invariant
            n == s@.len(),
            p <= s@.len(),
            s@ == text@,
            key@ == "PID"@,
            out@ + usage_pids_from(s@, p as int) == usage_pids_from(s@, 0),
        decreases s@.len() - p,
    {
        let boundary = p == 0 || !crate::scan::class_has(CharClass::Word, s[p - 1]);
        if boundary && matches_at(&s, p, &key) {
            assert(p + key@.len() <= n);
            let c = skip_run(&s, p + key.len(), CharClass::ColonOrSpace);
            let d = skip_run(&s, c, CharClass::Digit);
            if c > p + key.len() && d > c {
                proof {
                    assert forall|i: int| c <= i < d implies is_digit(#[trigger] s@[i]) by {
                        lemma_run_class(s@, c as int, i, CharClass::Digit);
                    }
                }
                match digits_u64(&s, c, d) {
                    Some(v) => if v <= u32::MAX as u64 {
                        out.push(v as u32);
                    },
                    None => {},
                }
                assert(out@ + usage_pids_from(s@, d as int) =~= usage_pids_from(s@, 0));
                p = d;
                continue;
            }
        }
        p = p + 1;
    }
    assert(out@ =~= out@ + usage_pids_from(s@, p as int));
    out
}

} // verus!
