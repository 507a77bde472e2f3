use bzip2_benchmarks::args::{parse_ab_iterations, parse_suite_args};

fn args(list: &[&str]) -> Vec<String> {
    list.iter().map(|s| s.to_string()).collect()
}

#[test]
fn suite_defaults() {
    let a = parse_suite_args(&args(&["bench_suite"]));
    assert_eq!(a.iterations, 20);
    assert_eq!(a.json_out, None);
}

#[test]
fn suite_options() {
    let a = parse_suite_args(&args(&["bench_suite", "--iterations", "7", "--json", "out.json"]));
    assert_eq!(a.iterations, 7);
    assert_eq!(a.json_out, Some("out.json".to_string()));
    let b = parse_suite_args(&args(&["bench_suite", "report.json", "--iterations", "x"]));
    assert_eq!(b.iterations, 20);
    assert_eq!(b.json_out, Some("report.json".to_string()));
    let c = parse_suite_args(&args(&["bench_suite", "first.json", "second.json", "--json"]));
    assert_eq!(c.json_out, Some("first.json".to_string()));
    let d = parse_suite_args(&args(&["bench_suite", "--nexrad-only", "--iterations"]));
    assert_eq!(d.iterations, 20);
    assert_eq!(d.json_out, None);
    let e = parse_suite_args(&args(&["bench_suite", "a.json", "--json", "b.json"]));
    assert_eq!(e.json_out, Some("b.json".to_string()));
}

#[test]
fn ab_iterations() {
    assert_eq!(parse_ab_iterations(&args(&["bench_ab"])), 5);
    assert_eq!(parse_ab_iterations(&args(&["bench_ab", "--iterations", "10"])), 10);
    assert_eq!(parse_ab_iterations(&args(&["bench_ab", "--iterations", "ten"])), 5);
    assert_eq!(parse_ab_iterations(&args(&["bench_ab", "--iterations", "3", "--iterations", "4"])), 4);
    assert_eq!(parse_ab_iterations(&args(&["bench_ab", "x", "--iterations"])), 5);
}
