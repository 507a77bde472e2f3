//! Command-line options of the benchmark runners.

use vstd::prelude::*;

use crate::text::{parse_usize, same_text, spec_parse_usize, starts_with, views};

verus! {

/// Iterations a suite run times when none are asked for.
pub const SUITE_DEFAULT_ITERATIONS: usize = 20;

/// Iterations an A/B run times per file when none are asked for.
pub const AB_DEFAULT_ITERATIONS: usize = 5;

/// The number that `arg` names, or `default` when it names none.
pub open spec fn count_or(arg: Seq<char>, default: int) -> int {
    match spec_parse_usize(arg) {
        Some(n) => n,
        None => default,
    }
}

/// Options of a suite run.
#[derive(Debug, Clone)]
pub struct SuiteArgs {
    /// Timed iterations per measurement.
    pub iterations: usize,
    /// Where to write the machine-readable results, if anywhere.
    pub json_out: Option<String>,
}

/// Scans the arguments from position `i` with the options read so far. `--iterations N`
/// and `--json PATH` take the next argument; the first argument that does not start with
/// `--`, while no output path is set, names the output path; anything else is skipped.
pub open spec fn spec_scan_suite(args: Seq<Seq<char>>, i: int, iterations: int, json: Option<Seq<char>>) -> (int, Option<Seq<char>>)
    decreases args.len() - i,
{
    if i < 1 || i >= args.len() {
        (iterations, json)
    } else if args[i] == "--iterations"@ && i + 1 < args.len() {
        spec_scan_suite(args, i + 2, count_or(args[i + 1], SUITE_DEFAULT_ITERATIONS as int), json)
    } else if args[i] == "--json"@ && i + 1 < args.len() {
        spec_scan_suite(args, i + 2, iterations, Some(args[i + 1]))
    } else if !(args[i].len() >= 2 && args[i].take(2) == "--"@) && json is None {
        spec_scan_suite(args, i + 1, iterations, Some(args[i]))
    } else {
        spec_scan_suite(args, i + 1, iterations, json)
    }
}

/// The options of a suite run; `args[0]` is the program name.
pub open spec fn spec_suite_args(args: Seq<Seq<char>>) -> (int, Option<Seq<char>>) {
    spec_scan_suite(args, 1, SUITE_DEFAULT_ITERATIONS as int, None)
}

/// The text of an optional string.
pub open spec fn opt_view(o: Option<String>) -> Option<Seq<char>> {
    match o {
        Some(s) => Some(s@),
        None => None,
    }
}

/// Reads the options of a suite run from `args`, where `args[0]` is the program name.
pub fn parse_suite_args(args: &Vec<String>) -> (r: SuiteArgs)
    ensures
        (r.iterations as int, opt_view(r.json_out)) == spec_suite_args(views(args@)),
{
    let n = args.len();
    let mut iterations: usize = SUITE_DEFAULT_ITERATIONS;
    let mut json_out: Option<String> = None;
    let mut i: usize = 1;
    let ghost a = views(args@);
    while i < n
        invariant
            1 <= i,
            n == args@.len(),
            a == views(args@),
            spec_suite_args(a) == spec_scan_suite(a, i as int, iterations as int, opt_view(json_out)),
        decreases n - i,
    {
        let arg = args[i].as_str();
        assert(a[i as int] == arg@);
        proof {
            reveal_strlit("--");
        }
        if same_text(arg, "--iterations") && i + 1 < n {
            iterations = match parse_usize(args[i + 1].as_str()) {
                Some(v) => v,
                None => SUITE_DEFAULT_ITERATIONS,
            };
            i = i + 2;
        } else if same_text(arg, "--json") && i + 1 < n {
            json_out = Some(args[i + 1].clone());
            i = i + 2;
        } else if !starts_with(arg, "--") && json_out.is_none() {
            json_out = Some(args[i].clone());
            i = i + 1;
        } else {
            i = i + 1;
        }
    }
    SuiteArgs { iterations, json_out }
}

/// Scans the arguments of an A/B run from position `i`: `--iterations N` takes the next
/// argument; anything else is skipped.
pub open spec fn spec_scan_ab(args: Seq<Seq<char>>, i: int, iterations: int) -> int
    decreases args.len() - i,
{
    if i < 1 || i >= args.len() {
        iterations
    } else if args[i] == "--iterations"@ && i + 1 < args.len() {
        spec_scan_ab(args, i + 2, count_or(args[i + 1], AB_DEFAULT_ITERATIONS as int))
    } else {
        spec_scan_ab(args, i + 1, iterations)
    }
}

/// Reads the per-file iteration count of an A/B run from `args`.
pub fn parse_ab_iterations(args: &Vec<String>) -> (r: usize)
    ensures
        r as int == spec_scan_ab(views(args@), 1, AB_DEFAULT_ITERATIONS as int),
{
    let n = args.len();
    let mut iterations: usize = AB_DEFAULT_ITERATIONS;
    let mut i: usize = 1;
    let ghost a = views(args@);
    while i < n
        invariant
            1 <= i,
            n == args@.len(),
            a == views(args@),
            spec_scan_ab(a, 1, AB_DEFAULT_ITERATIONS as int) == spec_scan_ab(a, i as int, iterations as int),
        decreases n - i,
    {
        let arg = args[i].as_str();
        assert(a[i as int] == arg@);
        if same_text(arg, "--iterations") && i + 1 < n {
            iterations = match parse_usize(args[i + 1].as_str()) {
                Some(v) => v,
                None => AB_DEFAULT_ITERATIONS,
            };
            i = i + 2;
        } else {
            i = i + 1;
        }
    }
    iterations
}

/// `--iterations N` sets the count from `N` (the default when `N` names no count) and `N`
/// is consumed by it: it is never taken as the output path.
pub proof fn lemma_iterations_value_is_consumed(prog: Seq<char>, n: Seq<char>)
    ensures
        spec_suite_args(seq![prog, "--iterations"@, n]) == (count_or(n, SUITE_DEFAULT_ITERATIONS as int), None::<Seq<char>>),
{
    let a = seq![prog, "--iterations"@, n];
    assert(a[1] == "--iterations"@);
    assert(spec_scan_suite(a, 3, count_or(n, SUITE_DEFAULT_ITERATIONS as int), None) == (count_or(n, SUITE_DEFAULT_ITERATIONS as int), None::<Seq<char>>));
}

/// `--json PATH` names the output path and leaves the count at its default.
pub proof fn lemma_json_option_names_output(prog: Seq<char>, path: Seq<char>)
    ensures
        spec_suite_args(seq![prog, "--json"@, path]) == (SUITE_DEFAULT_ITERATIONS as int, Some(path)),
{
    reveal_strlit("--json");
    reveal_strlit("--iterations");
    let a = seq![prog, "--json"@, path];
    assert(a[1] != "--iterations"@) by {
        assert(a[1].len() != "--iterations"@.len());
    }
    assert(spec_scan_suite(a, 3, SUITE_DEFAULT_ITERATIONS as int, Some(path)) == (SUITE_DEFAULT_ITERATIONS as int, Some(path)));
}

/// A lone argument that does not start with `--` is the output path.
pub proof fn lemma_positional_names_output(prog: Seq<char>, path: Seq<char>)
    requires
        !(path.len() >= 2 && path.take(2) == "--"@),
    ensures
        spec_suite_args(seq![prog, path]) == (SUITE_DEFAULT_ITERATIONS as int, Some(path)),
{
    reveal_strlit("--json");
    reveal_strlit("--iterations");
    let a = seq![prog, path];
    assert(a[1] == path);
    assert(spec_scan_suite(a, 2, SUITE_DEFAULT_ITERATIONS as int, Some(path)) == (SUITE_DEFAULT_ITERATIONS as int, Some(path)));
}

} // verus!
