use bzip2_benchmarks::env::{cpu_model, find_cpu_model};

#[test]
fn model_name_line() {
    let info = "processor\t: 0\nvendor_id\t: AuthenticAMD\nmodel name\t: AMD Ryzen 7 7840HS w/ Radeon 780M Graphics\nmodel name\t: second\n";
    assert_eq!(cpu_model(info), "AMD Ryzen 7 7840HS w/ Radeon 780M Graphics");
}

#[test]
fn unknown_without_model() {
    assert_eq!(cpu_model(""), "Unknown CPU");
    assert_eq!(cpu_model("vendor_id : x\nmodel : y"), "Unknown CPU");
    assert_eq!(find_cpu_model("model name without colon\n"), None);
}

#[test]
fn colon_less_line_is_skipped_and_text_trimmed() {
    let info = "model name missing\r\nmodel name :  Xeon: Gold \u{a0}\r\n";
    assert_eq!(cpu_model(info), "Xeon: Gold");
    assert_eq!(find_cpu_model("model name:"), Some(String::new()));
    assert_eq!(cpu_model("model name: last line"), "last line");
}
