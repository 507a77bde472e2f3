//! Reading the CPU model out of the text of `/proc/cpuinfo`.

use vstd::prelude::*;

use crate::text::{chars_of, push_char};

verus! {

/// Unicode `White_Space`, the characters that `char::is_whitespace` accepts.
pub open spec fn is_space(c: char) -> bool {
    ||| '\t' <= c <= '\r'
    ||| c == ' '
    ||| c == '\u{85}'
    ||| c == '\u{a0}'
    ||| c == '\u{1680}'
    ||| '\u{2000}' <= c <= '\u{200a}'
    ||| c == '\u{2028}'
    ||| c == '\u{2029}'
    ||| c == '\u{202f}'
    ||| c == '\u{205f}'
    ||| c == '\u{3000}'
}

fn space_char(c: char) -> (b: bool)
    ensures
        b == is_space(c),
{
    ('\t' <= c && c <= '\r') || c == ' ' || c == '\u{85}' || c == '\u{a0}' || c == '\u{1680}'
        || ('\u{2000}' <= c && c <= '\u{200a}') || c == '\u{2028}' || c == '\u{2029}'
        || c == '\u{202f}' || c == '\u{205f}' || c == '\u{3000}'
}

/// `s` without its leading white space.
pub open spec fn trim_start(s: Seq<char>) -> Seq<char>
    decreases s.len(),
{
    if s.len() > 0 && is_space(s[0]) {
        trim_start(s.drop_first())
    } else {
        s
    }
}

/// `s` without its trailing white space.
pub open spec fn trim_end(s: Seq<char>) -> Seq<char>
    decreases s.len(),
{
    if s.len() > 0 && is_space(s.last()) {
        trim_end(s.drop_last())
    } else {
        s
    }
}

/// `s` without leading and trailing white space, as `str::trim` gives it.
pub open spec fn spec_trim(s: Seq<char>) -> Seq<char> {
    trim_end(trim_start(s))
}

/// Position of the first `:` in `line`, or its length when there is none.
pub open spec fn first_colon(line: Seq<char>, i: int) -> int
    decreases line.len() - i,
{
    if i >= line.len() {
        line.len() as int
    } else if line[i] == ':' {
        i
    } else {
        first_colon(line, i + 1)
    }
}

/// The model that a line of `/proc/cpuinfo` names: for a line that starts with
/// `model name` and holds a `:`, the trimmed text after its first `:`.
pub open spec fn model_of_line(line: Seq<char>) -> Option<Seq<char>> {
    let c = first_colon(line, 0);
    if line.len() >= 10 && line.take(10) == "model name"@ && c < line.len() {
        Some(spec_trim(line.skip(c + 1)))
    } else {
        None
    }
}

/// Scans `s` from position `i`, where the current line started at `start`, for the first
/// line that names a model. Lines end at `\n`.
pub open spec fn scan_model(s: Seq<char>, i: int, start: int) -> Option<Seq<char>>
    decreases s.len() - i,
{
    if i >= s.len() {
        model_of_line(s.subrange(start, s.len() as int))
    } else if s[i] == '\n' {
        match model_of_line(s.subrange(start, i)) {
            Some(m) => Some(m),
            None => scan_model(s, i + 1, i + 1),
        }
    } else {
        scan_model(s, i + 1, start)
    }
}

/// The CPU model that `/proc/cpuinfo` text names, if a line names one.
pub open spec fn spec_cpu_model(s: Seq<char>) -> Option<Seq<char>> {
    scan_model(s, 0, 0)
}

fn collect_range(v: &Vec<char>, lo: usize, hi: usize) -> (r: String)
    requires
        lo <= hi <= v@.len(),
    ensures
        r@ == v@.subrange(lo as int, hi as int),
{
    let mut r = String::new();
    let mut k = lo;
    while k < hi
        invariant
            lo <= k <= hi,
            hi <= v@.len(),
            r@ == v@.subrange(lo as int, k as int),
        decreases hi - k,
    {
        push_char(&mut r, v[k]);
        assert(v@.subrange(lo as int, k + 1) =~= v@.subrange(lo as int, k as int).push(v@[k as int]));
        k = k + 1;
    }
    r
}

fn trimmed_range(v: &Vec<char>, lo: usize, hi: usize) -> (r: (usize, usize))
    requires
        lo <= hi <= v@.len(),
    ensures
        lo <= r.0 <= r.1 <= hi,
        v@.subrange(r.0 as int, r.1 as int) == spec_trim(v@.subrange(lo as int, hi as int)),
{
    let mut a = lo;
    while a < hi && space_char(v[a])
        invariant
            lo <= a <= hi,
            hi <= v@.len(),
            trim_start(v@.subrange(lo as int, hi as int)) == trim_start(v@.subrange(a as int, hi as int)),
        decreases hi - a,
    {
        assert(v@.subrange(a as int, hi as int).drop_first() =~= v@.subrange(a + 1, hi as int));
        a = a + 1;
    }
    let mut b = hi;
    assert(trim_start(v@.subrange(a as int, hi as int)) == v@.subrange(a as int, hi as int));
    while b > a && space_char(v[b - 1])
        invariant
            a <= b <= hi,
            hi <= v@.len(),
            trim_end(v@.subrange(a as int, hi as int)) == trim_end(v@.subrange(a as int, b as int)),
        decreases b - a,
    {
        assert(v@.subrange(a as int, b as int).drop_last() =~= v@.subrange(a as int, b - 1));
        b = b - 1;
    }
    (a, b)
}

proof fn lemma_first_colon_bounds(line: Seq<char>, i: int)
    requires
        0 <= i <= line.len(),
    ensures
        i <= first_colon(line, i) <= line.len(),
    decreases line.len() - i,
{
    if i < line.len() && line[i] != ':' {
        lemma_first_colon_bounds(line, i + 1);
    }
}

fn colon_position(v: &Vec<char>, lo: usize, hi: usize) -> (c: usize)
    requires
        lo <= hi <= v@.len(),
    ensures
        c == lo + first_colon(v@.subrange(lo as int, hi as int), 0),
        lo <= c <= hi,
{
    proof {
        lemma_first_colon_bounds(v@.subrange(lo as int, hi as int), 0);
    }
    let ghost line = v@.subrange(lo as int, hi as int);
    let mut k = lo;
    while k < hi && v[k] != ':'
        invariant
            lo <= k <= hi,
            hi <= v@.len(),
            line == v@.subrange(lo as int, hi as int),
            first_colon(line, 0) == first_colon(line, k - lo),
        decreases hi - k,
    {
        k = k + 1;
    }
    k
}

fn line_model(v: &Vec<char>, lo: usize, hi: usize) -> (m: Option<String>)
    requires
        lo <= hi <= v@.len(),
    ensures
        match m {
            Some(t) => model_of_line(v@.subrange(lo as int, hi as int)) == Some(t@),
            None => model_of_line(v@.subrange(lo as int, hi as int)) is None,
        },
{
    let ghost line = v@.subrange(lo as int, hi as int);
    proof {
        reveal_strlit("model name");
    }
    if hi - lo < 10 {
        return None;
    }
    let key = chars_of("model name");
    let mut k: usize = 0;
    while k < 10
        invariant
            k <= 10,
            key@ == "model name"@,
            key@.len() == 10,
            lo + 10 <= hi <= v@.len(),
            line == v@.subrange(lo as int, hi as int),
            forall|j: int| 0 <= j < k ==> line[j] == key@[j],
        decreases 10 - k,
    {
        if v[lo + k] != key[k] {
            assert(line.take(10)[k as int] != "model name"@[k as int]);
            return None;
        }
        k = k + 1;
    }
    assert(line.take(10) =~= "model name"@);
    let c = colon_position(v, lo, hi);
    if c >= hi {
        return None;
    }
    let (a, b) = trimmed_range(v, c + 1, hi);
    assert(line.skip(c - lo + 1) =~= v@.subrange(c + 1, hi as int));
    Some(collect_range(v, a, b))
}

/// The CPU model that `/proc/cpuinfo` text names: the trimmed text after the first `:` of
/// the first line that starts with `model name` and holds a `:`.
pub fn find_cpu_model(cpuinfo: &str) -> (m: Option<String>)
    ensures
        match m {
            Some(t) => spec_cpu_model(cpuinfo@) == Some(t@),
            None => spec_cpu_model(cpuinfo@) is None,
        },
{
    let v = chars_of(cpuinfo);
    let n = v.len();
    let mut start: usize = 0;
    let mut i: usize = 0;
    while i < n
        invariant
            start <= i <= n,
            n == v@.len(),
            v@ == cpuinfo@,
            spec_cpu_model(cpuinfo@) == scan_model(v@, i as int, start as int),
        decreases n - i,
    {
        if v[i] == '\n' {
            let found = line_model(&v, start, i);
            if found.is_some() {
                return found;
            }
            start = i + 1;
        }
        i = i + 1;
    }
    line_model(&v, start, n)
}

/// The CPU model named in `/proc/cpuinfo` text, or `Unknown CPU` when no line names one.
pub fn cpu_model(cpuinfo: &str) -> (m: String)
    ensures
        m@ == match spec_cpu_model(cpuinfo@) {
            Some(t) => t,
            None => "Unknown CPU"@,
        },
{
    match find_cpu_model(cpuinfo) {
        Some(t) => t,
        None => String::from_str("Unknown CPU"),
    }
}

} // verus!
