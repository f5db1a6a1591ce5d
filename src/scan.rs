//! Character-level scanning used by the tool-output parsers.
use vstd::prelude::*;
use vstd::std_specs::iter::IteratorSpec;

verus! {

broadcast use vstd::string::group_string_axioms;

/// The characters of a string, as a vector.
pub fn char_vec(s: &str) -> (r: Vec<char>)
    ensures
        r@ == s@,
{
    let mut it = s.chars();
    let mut out: Vec<char> = Vec::new();
    loop
        invariant
            out@ + it.remaining() == s@,
            it.decrease() is Some,
        ensures
            out@ == s@,
        decreases it.decrease()->0,
    {
        match it.next() {
            Some(c) => {
                out.push(c);
                assert(out@ + it.remaining() =~= s@);
            },
            None => {
                assert(out@ =~= s@);
                break;
            },
        }
    }
    out
}

/// Character classes of the table and log grammars.
#[derive(Debug, Clone, Copy, PartialEq, Eq, Structural)]
pub enum CharClass {
    /// Space, tab, line feed, carriage return, vertical tab, form feed.
    Space,
    /// Anything but `Space`.
    NonSpace,
    /// `0`–`9`.
    Digit,
    /// ASCII letters, digits and `_`.
    Word,
    /// Hex digits, `:` and `.` (bus identifiers).
    BusId,
    /// Anything but `)`.
    NotCloseParen,
    /// Anything but a line feed.
    NotNewline,
    /// `:` or `Space`.
    ColonOrSpace,
}

pub open spec fn is_space(c: char) -> bool {
    c == ' ' || c == '\t' || c == '\n' || c == '\r' || c == '\x0B' || c == '\x0C'
}

pub open spec fn is_digit(c: char) -> bool {
    '0' <= c && c <= '9'
}

pub open spec fn is_hex_letter(c: char) -> bool {
    ('a' <= c && c <= 'f') || ('A' <= c && c <= 'F')
}

pub open spec fn is_word(c: char) -> bool {
    is_digit(c) || ('a' <= c && c <= 'z') || ('A' <= c && c <= 'Z') || c == '_'
}

/// Whether `c` is in class `k`.
pub open spec fn in_class(k: CharClass, c: char) -> bool {
    match k {
        CharClass::Space => is_space(c),
        CharClass::NonSpace => !is_space(c),
        CharClass::Digit => is_digit(c),
        CharClass::Word => is_word(c),
        CharClass::BusId => is_digit(c) || is_hex_letter(c) || c == ':' || c == '.',
        CharClass::NotCloseParen => c != ')',
        CharClass::NotNewline => c != '\n',
        CharClass::ColonOrSpace => c == ':' || is_space(c),
    }
}

/// Whether `c` is in class `k`.
pub fn class_has(k: CharClass, c: char) -> (r: bool)
    ensures
        r == in_class(k, c),
{
    let space = c == ' ' || c == '\t' || c == '\n' || c == '\r' || c == '\x0B' || c == '\x0C';
    let digit = '0' <= c && c <= '9';
    match k {
        CharClass::Space => space,
        CharClass::NonSpace => !space,
        CharClass::Digit => digit,
        CharClass::Word => digit || ('a' <= c && c <= 'z') || ('A' <= c && c <= 'Z') || c == '_',
        CharClass::BusId => digit || ('a' <= c && c <= 'f') || ('A' <= c && c <= 'F') || c == ':' || c == '.',
        CharClass::NotCloseParen => c != ')',
        CharClass::NotNewline => c != '\n',
        CharClass::ColonOrSpace => c == ':' || space,
    }
}

/// The end of the maximal run of class `k` that starts at `p`.
pub open spec fn run_end(s: Seq<char>, p: int, k: CharClass) -> int
    decreases s.len() - p,
{
    if p < 0 || p >= s.len() || !in_class(k, s[p]) {
        p
    } else {
        run_end(s, p + 1, k)
    }
}

/// Every position inside a maximal run of class `k` is in the class.
pub proof fn lemma_run_class(s: Seq<char>, p: int, i: int, k: CharClass)
    requires
        0 <= p <= i < run_end(s, p, k),
    ensures
        in_class(k, s[i]),
    decreases i - p,
{
    if i > p {
        lemma_run_class(s, p + 1, i, k);
    }
}

/// Skips the maximal run of class `k` from `p`.
pub fn skip_run(s: &Vec<char>, p: usize, k: CharClass) -> (q: usize)
    requires
        p <= s@.len(),
    ensures
        q == run_end(s@, p as int, k),
        p <= q <= s@.len(),
{
    let mut q = p;
    while q < s.len() && class_has(k, s[q])
        invariant
            p <= q <= s@.len(),
            run_end(s@, p as int, k) == run_end(s@, q as int, k),
        decreases s@.len() - q,
    {
        q = q + 1;
    }
    q
}

/// The value of a string of decimal digits.
pub open spec fn digits_value(d: Seq<char>) -> nat
    decreases d.len(),
{
    if d.len() == 0 {
        0
    } else {
        digits_value(d.drop_last()) * 10 + ((d.last() as u32 - '0' as u32) as nat)
    }
}

/// The value of the digits `s[a..b]`, if it fits in a `u64`.
pub fn digits_u64(s: &Vec<char>, a: usize, b: usize) -> (r: Option<u64>)
    requires
        a <= b <= s@.len(),
        forall|i: int| a <= i < b ==> is_digit(#[trigger] s@[i]),
    ensures
        digits_value(s@.subrange(a as int, b as int)) <= u64::MAX ==> r == Some(
            digits_value(s@.subrange(a as int, b as int)) as u64,
        ),
        digits_value(s@.subrange(a as int, b as int)) > u64::MAX ==> r.is_none(),
{
    let mut acc: u64 = 0;
    let mut over = false;
    let mut i = a;
    while i < b
        invariant
            a <= i <= b <= s@.len(),
            forall|j: int| a <= j < b ==> is_digit(#[trigger] s@[j]),
            over ==> digits_value(s@.subrange(a as int, i as int)) > u64::MAX,
            !over ==> acc == digits_value(s@.subrange(a as int, i as int)),
        decreases b - i,
    {
        let ghost prev = s@.subrange(a as int, i as int);
        assert(s@.subrange(a as int, i + 1).drop_last() =~= prev);
        assert(s@.subrange(a as int, i + 1).last() == s@[i as int]);
        let d = (s[i] as u32 - '0' as u32) as u64;
        assert(is_digit(s@[i as int]));
        assert(d < 10);
        let ghost v = digits_value(prev);
        if !over {
            if acc > (u64::MAX - d) / 10 {
                over = true;
                assert(v * 10 + d > u64::MAX) by (nonlinear_arith)
                    requires
                        v == acc,
                        acc > (u64::MAX - d) / 10,
                        d < 10,
                ;
            } else {
                assert(acc * 10 + d <= u64::MAX) by (nonlinear_arith)
                    requires
                        acc <= (u64::MAX - d) / 10,
                        d < 10,
                ;
                acc = acc * 10 + d;
            }
        } else {
            assert(v * 10 + d > u64::MAX) by (nonlinear_arith)
                requires
                    v > u64::MAX,
            ;
        }
        i = i + 1;
    }
    if over {
        None
    } else {
        Some(acc)
    }
}

/// `l` without one trailing carriage return.
pub open spec fn strip_cr(l: Seq<char>) -> Seq<char> {
    if l.len() > 0 && l.last() == '\r' {
        l.drop_last()
    } else {
        l
    }
}

/// The lines of `s` from position `p`: split at line feeds, each without a
/// trailing carriage return, with no empty line after a final line feed.
pub open spec fn lines_from(s: Seq<char>, p: int) -> Seq<Seq<char>>
    decreases s.len() - p,
{
    if p < 0 || p >= s.len() {
        Seq::empty()
    } else {
        let e = run_end(s, p, CharClass::NotNewline);
        if e < p || e > s.len() {
            Seq::empty()
        } else if e == s.len() {
            seq![strip_cr(s.subrange(p, e))]
        } else {
            seq![strip_cr(s.subrange(p, e))] + lines_from(s, e + 1)
        }
    }
}

/// `s[a..b]` as a vector.
pub fn slice_vec(s: &Vec<char>, a: usize, b: usize) -> (r: Vec<char>)
    requires
        a <= b <= s@.len(),
    ensures
        r@ == s@.subrange(a as int, b as int),
{
    let mut r: Vec<char> = Vec::new();
    let mut i = a;
    while i < b
        invariant
            a <= i <= b <= s@.len(),
            r@ == s@.subrange(a as int, i as int),
        decreases b - i,
    {
        r.push(s[i]);
        i = i + 1;
        assert(r@ =~= s@.subrange(a as int, i as int));
    }
    r
}

/// The lines of a text (see [`lines_from`]).
pub fn split_lines(s: &Vec<char>) -> (r: Vec<Vec<char>>)
    ensures
        r@.map_values(|l: Vec<char>| l@) == lines_from(s@, 0),
{
    let mut out: Vec<Vec<char>> = Vec::new();
    let mut p: usize = 0;
    while p < s.len()
        invariant
            p <= s@.len(),
            out@.map_values(|l: Vec<char>| l@) + lines_from(s@, p as int) == lines_from(s@, 0),
        decreases s@.len() - p,
    {
        let e = skip_run(s, p, CharClass::NotNewline);
        let line = if e > p && s[e - 1] == '\r' {
            slice_vec(s, p, e - 1)
        } else {
            slice_vec(s, p, e)
        };
        proof {
            let l = s@.subrange(p as int, e as int);
            if e > p && s@[e - 1] == '\r' {
                assert(l.drop_last() =~= s@.subrange(p as int, e - 1));
            }
            assert(line@ == strip_cr(l));
        }
        let ghost prev = out@;
        out.push(line);
        assert(out@.map_values(|l: Vec<char>| l@) =~= prev.map_values(|l: Vec<char>| l@).push(line@));
        if e >= s.len() {
            p = s.len();
        } else {
            p = e + 1;
        }
    }
    assert(lines_from(s@, p as int) =~= Seq::<Seq<char>>::empty());
    out
}

/// Relies on `String: FromIterator<char>`: the string holds the characters
/// in order.
#[verifier::external_body]
pub fn string_of(cs: &[char]) -> (r: String)
    ensures
        r@ == cs@,
{
    String::from_iter(cs)
}

/// Whether `lit` occurs in `s` at position `p`.
pub open spec fn at(s: Seq<char>, p: int, lit: Seq<char>) -> bool {
    0 <= p && p + lit.len() <= s.len() && s.subrange(p, p + lit.len()) == lit
}

/// Whether `lit` occurs in `s` at position `p`.
pub fn matches_at(s: &Vec<char>, p: usize, lit: &Vec<char>) -> (r: bool)
    ensures
        r == at(s@, p as int, lit@),
{
    if p > s.len() || lit.len() > s.len() - p {
        return false;
    }
    let n = s.len();
    let mut i: usize = 0;
    while i < lit.len()
        invariant
            n == s@.len(),
            p + lit@.len() <= s@.len(),
            i <= lit@.len(),
            forall|j: int| 0 <= j < i ==> s@[p + j] == lit@[j],
        decreases lit@.len() - i,
    {
        assert(p + i < s@.len());
        if s[p + i] != lit[i] {
            assert(s@.subrange(p as int, p + lit@.len())[i as int] != lit@[i as int]);
            return false;
        }
        i = i + 1;
    }
    assert(s@.subrange(p as int, p + lit@.len()) =~= lit@);
    true
}

} // verus!
