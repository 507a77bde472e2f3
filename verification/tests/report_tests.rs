use bzip2_benchmarks::dataset::DataCategory;
use bzip2_benchmarks::report::{
    aggregate_row, compression_row, decompression_row, display_file_name, enclose, find_baseline,
    render_report, BenchmarkOp, EnvMetadata,
};

fn meta() -> EnvMetadata {
    EnvMetadata {
        cpu: "AMD Ryzen".to_string(),
        os: "linux x86_64".to_string(),
        rustc: "rustc 1.80.0".to_string(),
        iterations: 12,
        baseline: "origin/main".to_string(),
        target: "feature".to_string(),
    }
}

#[test]
fn labels_and_names() {
    assert_eq!(BenchmarkOp::Decompression.label(), "Decompression");
    assert_eq!(BenchmarkOp::Compression.label(), "Compression");
    assert_eq!(display_file_name("silesia_x-ray"), "x-ray");
    assert_eq!(display_file_name("nexrad3"), "nexrad3");
    assert_eq!(enclose("**", "a", "**"), "**a**");
}

#[test]
fn baseline_pairing() {
    let names = vec!["silesia_mr".to_string(), "silesia_xml".to_string(), "silesia_xml".to_string()];
    assert_eq!(find_baseline(&names, &"silesia_xml".to_string()), Some(1));
    assert_eq!(find_baseline(&names, &"silesia_mr".to_string()), Some(0));
    assert_eq!(find_baseline(&names, &"silesia_sao".to_string()), None);
}

#[test]
fn rows_match_table_layout() {
    assert_eq!(
        aggregate_row("NEXRAD Radar", BenchmarkOp::Decompression, "322.15 MB/s (±0.3% MAD)", "472.90 MB/s (±0.3% MAD)", "+150.75 MB/s", "**+46.8%**"),
        "| **NEXRAD Radar** | Decompression | 322.15 MB/s (±0.3% MAD) | **472.90 MB/s (±0.3% MAD)** | +150.75 MB/s | **+46.8%** |"
    );
    assert_eq!(
        decompression_row("mozilla", DataCategory::TarExecutable, "51.22", "45.24 MB/s (±2.2% MAD)", "54.48 MB/s (±4.4% MAD)", "**+20.4%**"),
        "| **`mozilla`** | Tar / Executables | 51.22 MB | 45.24 MB/s (±2.2% MAD) | **54.48 MB/s (±4.4% MAD)** | **+20.4%** |"
    );
    assert_eq!(
        compression_row("xml", DataCategory::XmlMarkup, "5.35", "12.34", "1.00 MB/s (±0.0% MAD)", "2.00 MB/s (±0.0% MAD)", "**+100.0%**"),
        "| **`xml`** | XML Markup | 5.35 MB | 12.34% | 1.00 MB/s (±0.0% MAD) | **2.00 MB/s (±0.0% MAD)** | **+100.0%** |"
    );
}

#[test]
fn report_layout() {
    let m = meta();
    let agg = vec!["AGG1".to_string(), "AGG2".to_string()];
    let dec = vec!["DEC".to_string()];
    let comp = vec![];
    let text = render_report(&m, &agg, &dec, &comp);
    let mut out: Vec<String> = Vec::new();
    out.push(format!("# Benchmark A/B Report (Iso-Thermal Interleaved): `{}` vs `{}`\n", m.baseline, m.target));
    out.push("### Environment & Benchmark Configuration\n".to_string());
    out.push("| Parameter | Value |".to_string());
    out.push("| :--- | :--- |".to_string());
    out.push(format!("| **CPU Model** | {} |", m.cpu));
    out.push(format!("| **OS / Kernel** | {} |", m.os));
    out.push(format!("| **Rust Toolchain** | `{}` |", m.rustc));
    out.push("| **Execution Methodology** | **Iso-Thermal Interleaved A/B (CPU Pinned to Core 2)** |".to_string());
    out.push(format!("| **Iterations per File** | **{} iterations (+ 5 warmup passes)** |", m.iterations));
    out.push(format!("| **Baseline Ref** | `{}` |", m.baseline));
    out.push(format!("| **Target Ref** | `{}` |\n", m.target));
    out.push("## 1. Overall Aggregate Throughput (Median ± MAD% Dispersion)\n".to_string());
    out.push(format!("| Dataset | Operation | Baseline (`{}`) | Target (`{}`) | Throughput Delta | Speedup |", m.baseline, m.target));
    out.push("| :--- | :--- | :--- | :--- | :--- | :--- |".to_string());
    out.push("AGG1".to_string());
    out.push("AGG2".to_string());
    out.push("\n## 2. Silesia Decompression Performance (Median ± MAD% Dispersion)\n".to_string());
    out.push(format!("| File Name | Data Type Category | Size | Baseline (`{}`) | Target (`{}`) | Speedup |", m.baseline, m.target));
    out.push("| :--- | :--- | :--- | :--- | :--- | :--- |".to_string());
    out.push("DEC".to_string());
    out.push("\n## 3. Silesia Compression Performance (Median ± MAD% Dispersion)\n".to_string());
    out.push(format!("| File Name | Data Type Category | Size | Ratio | Baseline (`{}`) | Target (`{}`) | Speedup |", m.baseline, m.target));
    out.push("| :--- | :--- | :--- | :--- | :--- | :--- | :--- |".to_string());
    assert_eq!(text, out.join("\n"));
}
