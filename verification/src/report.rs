//! Layout of the Markdown A/B report: labels, file pairing, table rows and sections.
//!
//! Throughput figures are floating-point numbers; the caller renders them to text cells,
//! and this module places the cells in the report.

use vstd::prelude::*;

use crate::dataset::{DataCategory, SilesiaFileId, lemma_filename_is_prefixed_short_name};
use crate::text::{
    join, push_decimal, replace_all, seq_join, spec_decimal, spec_replace_all, spec_table_row,
    table_row, views,
};

verus! {

/// Benchmark operation type.
#[derive(Debug, Clone, Copy, PartialEq, Eq, Hash, Structural)]
pub enum BenchmarkOp {
    Decompression,
    Compression,
}

impl BenchmarkOp {
    /// The name under which the operation is displayed.
    pub open spec fn spec_label(self) -> Seq<char> {
        match self {
            BenchmarkOp::Decompression => "Decompression"@,
            BenchmarkOp::Compression => "Compression"@,
        }
    }

    /// The name under which the operation is displayed.
    pub fn label(&self) -> (l: &'static str)
        ensures
            l@ == self.spec_label(),
    {
        match self {
            BenchmarkOp::Decompression => "Decompression",
            BenchmarkOp::Compression => "Compression",
        }
    }
}

/// System environment metadata for the report header.
#[derive(Debug, Clone)]
pub struct EnvMetadata {
    pub cpu: String,
    pub os: String,
    pub rustc: String,
    pub iterations: usize,
    pub baseline: String,
    pub target: String,
}

/// The position of the first entry of `names` equal to `name`, if any: the baseline
/// result that a target result is compared with.
pub fn find_baseline(names: &Vec<String>, name: &String) -> (r: Option<usize>)
    ensures
        r matches Some(i) ==> i < names@.len() && names@[i as int]@ == name@,
        r matches Some(i) ==> forall|j: int| 0 <= j < i ==> (#[trigger] names@[j])@ != name@,
        r is None ==> forall|j: int| 0 <= j < names@.len() ==> (#[trigger] names@[j])@ != name@,
{
    let n = names.len();
    let mut i: usize = 0;
    while i < n
        invariant
            i <= n,
            n == names@.len(),
            forall|j: int| 0 <= j < i ==> (#[trigger] names@[j])@ != name@,
        decreases n - i,
    {
        if names[i] == *name {
            return Some(i);
        }
        i = i + 1;
    }
    None
}

/// The name under which a file appears in the report: the file name with every
/// `silesia_` removed.
pub open spec fn spec_display_name(name: Seq<char>) -> Seq<char> {
    spec_replace_all(name, "silesia_"@, Seq::empty())
}

/// The name under which a file appears in the report.
pub fn display_file_name(name: &str) -> (d: String)
    ensures
        d@ == spec_display_name(name@),
{
    proof {
        reveal_strlit("silesia_");
        reveal_strlit("");
        assert(""@ =~= Seq::<char>::empty());
    }
    replace_all(name, "silesia_", "")
}

/// A corpus file appears in the report under its corpus name.
pub proof fn lemma_display_name_of_corpus_file(id: SilesiaFileId)
    ensures
        spec_display_name(id.spec_filename()) == id.spec_short_name(),
{
    lemma_filename_is_prefixed_short_name(id);
    reveal_strlit("silesia_");
    let pat = "silesia_"@;
    let s = id.spec_filename();
    let short = id.spec_short_name();
    assert(s.take(pat.len() as int) =~= pat);
    assert(s.skip(pat.len() as int) =~= short);
    match id {
        SilesiaFileId::Dickens => reveal_strlit("dickens"),
        SilesiaFileId::Mozilla => reveal_strlit("mozilla"),
        SilesiaFileId::Mr => reveal_strlit("mr"),
        SilesiaFileId::Nci => reveal_strlit("nci"),
        SilesiaFileId::Ooffice => reveal_strlit("ooffice"),
        SilesiaFileId::Osdb => reveal_strlit("osdb"),
        SilesiaFileId::Reymont => reveal_strlit("reymont"),
        SilesiaFileId::Samba => reveal_strlit("samba"),
        SilesiaFileId::Sao => reveal_strlit("sao"),
        SilesiaFileId::Webster => reveal_strlit("webster"),
        SilesiaFileId::Xml => reveal_strlit("xml"),
        SilesiaFileId::XRay => reveal_strlit("x-ray"),
    }
    assert(short.len() < pat.len());
    assert(spec_replace_all(short, pat, Seq::empty()) == short);
    assert(s.len() >= pat.len());
    assert(spec_replace_all(s, pat, Seq::empty()) == Seq::<char>::empty() + spec_replace_all(s.skip(pat.len() as int), pat, Seq::empty()));
    assert(Seq::<char>::empty() + short =~= short);
}

/// `s` between `open` and `close`.
pub fn enclose(open: &str, s: &str, close: &str) -> (r: String)
    ensures
        r@ == open@ + s@ + close@,
{
    let mut r = String::from_str(open);
    r.append(s);
    r.append(close);
    r
}

fn push_line(lines: &mut Vec<String>, line: String)
    ensures
        views(final(lines)@) == views(old(lines)@).push(line@),
{
    lines.push(line);
    assert(views(final(lines)@) =~= views(old(lines)@).push(line@));
}

fn push_lines(lines: &mut Vec<String>, more: &Vec<String>)
    ensures
        views(final(lines)@) == views(old(lines)@) + views(more@),
{
    let n = more.len();
    let mut i: usize = 0;
    while i < n
        invariant
            i <= n,
            n == more@.len(),
            views(lines@) == views(old(lines)@) + views(more@).take(i as int),
        decreases n - i,
    {
        push_line(lines, more[i].clone());
        assert(views(more@).take(i + 1) =~= views(more@).take(i as int).push(more@[i as int]@));
        i = i + 1;
    }
    assert(views(more@).take(n as int) =~= views(more@));
}

/// A row of the aggregate-throughput table.
pub open spec fn spec_aggregate_row(dataset: Seq<char>, op: BenchmarkOp, baseline: Seq<char>, target: Seq<char>, delta: Seq<char>, speedup: Seq<char>) -> Seq<char> {
    spec_table_row(seq!["**"@ + dataset + "**"@, op.spec_label(), baseline, "**"@ + target + "**"@, delta, speedup])
}

/// Renders a row of the aggregate-throughput table from its rendered figures.
pub fn aggregate_row(dataset: &str, op: BenchmarkOp, baseline: &str, target: &str, delta: &str, speedup: &str) -> (r: String)
    ensures
        r@ == spec_aggregate_row(dataset@, op, baseline@, target@, delta@, speedup@),
{
    let mut cells: Vec<String> = Vec::new();
    cells.push(enclose("**", dataset, "**"));
    cells.push(String::from_str(op.label()));
    cells.push(String::from_str(baseline));
    cells.push(enclose("**", target, "**"));
    cells.push(String::from_str(delta));
    cells.push(String::from_str(speedup));
    assert(views(cells@) =~= seq!["**"@ + dataset@ + "**"@, op.spec_label(), baseline@, "**"@ + target@ + "**"@, delta@, speedup@]);
    table_row(&cells)
}

/// A row of the per-file decompression table.
pub open spec fn spec_decompression_row(name: Seq<char>, category: DataCategory, size: Seq<char>, baseline: Seq<char>, target: Seq<char>, speedup: Seq<char>) -> Seq<char> {
    spec_table_row(seq!["**`"@ + name + "`**"@, category.spec_label(), size + " MB"@, baseline, "**"@ + target + "**"@, speedup])
}

/// Renders a row of the per-file decompression table from its rendered figures.
pub fn decompression_row(name: &str, category: DataCategory, size: &str, baseline: &str, target: &str, speedup: &str) -> (r: String)
    ensures
        r@ == spec_decompression_row(name@, category, size@, baseline@, target@, speedup@),
{
    let mut cells: Vec<String> = Vec::new();
    cells.push(enclose("**`", name, "`**"));
    cells.push(String::from_str(category.label()));
    cells.push(enclose("", size, " MB"));
    cells.push(String::from_str(baseline));
    cells.push(enclose("**", target, "**"));
    cells.push(String::from_str(speedup));
    proof {
        reveal_strlit("");
    }
    assert(views(cells@) =~= seq!["**`"@ + name@ + "`**"@, category.spec_label(), size@ + " MB"@, baseline@, "**"@ + target@ + "**"@, speedup@]);
    table_row(&cells)
}

/// A row of the per-file compression table.
pub open spec fn spec_compression_row(name: Seq<char>, category: DataCategory, size: Seq<char>, ratio: Seq<char>, baseline: Seq<char>, target: Seq<char>, speedup: Seq<char>) -> Seq<char> {
    spec_table_row(seq!["**`"@ + name + "`**"@, category.spec_label(), size + " MB"@, ratio + "%"@, baseline, "**"@ + target + "**"@, speedup])
}

/// Renders a row of the per-file compression table from its rendered figures.
pub fn compression_row(name: &str, category: DataCategory, size: &str, ratio: &str, baseline: &str, target: &str, speedup: &str) -> (r: String)
    ensures
        r@ == spec_compression_row(name@, category, size@, ratio@, baseline@, target@, speedup@),
{
    let mut cells: Vec<String> = Vec::new();
    cells.push(enclose("**`", name, "`**"));
    cells.push(String::from_str(category.label()));
    cells.push(enclose("", size, " MB"));
    cells.push(enclose("", ratio, "%"));
    cells.push(String::from_str(baseline));
    cells.push(enclose("**", target, "**"));
    cells.push(String::from_str(speedup));
    proof {
        reveal_strlit("");
    }
    assert(views(cells@) =~= seq!["**`"@ + name@ + "`**"@, category.spec_label(), size@ + " MB"@, ratio@ + "%"@, baseline@, "**"@ + target@ + "**"@, speedup@]);
    table_row(&cells)
}

/// The lines of the report header, up to and including the head of the aggregate table.
pub open spec fn spec_header_lines(meta: EnvMetadata) -> Seq<Seq<char>> {
    seq![
        "# Benchmark A/B Report (Iso-Thermal Interleaved): `"@ + meta.baseline@ + "` vs `"@ + meta.target@ + "`\n"@,
        "### Environment & Benchmark Configuration\n"@,
        "| Parameter | Value |"@,
        "| :--- | :--- |"@,
        "| **CPU Model** | "@ + meta.cpu@ + " |"@,
        "| **OS / Kernel** | "@ + meta.os@ + " |"@,
        "| **Rust Toolchain** | `"@ + meta.rustc@ + "` |"@,
        "| **Execution Methodology** | **Iso-Thermal Interleaved A/B (CPU Pinned to Core 2)** |"@,
        "| **Iterations per File** | **"@ + spec_decimal(meta.iterations as nat) + " iterations (+ 5 warmup passes)** |"@,
        "| **Baseline Ref** | `"@ + meta.baseline@ + "` |"@,
        "| **Target Ref** | `"@ + meta.target@ + "` |\n"@,
        "## 1. Overall Aggregate Throughput (Median ± MAD% Dispersion)\n"@,
        "| Dataset | Operation | Baseline (`"@ + meta.baseline@ + "`) | Target (`"@ + meta.target@ + "`) | Throughput Delta | Speedup |"@,
        "| :--- | :--- | :--- | :--- | :--- | :--- |"@,
    ]
}

/// The lines that open the per-file decompression section.
pub open spec fn spec_decompression_head(meta: EnvMetadata) -> Seq<Seq<char>> {
    seq![
        "\n## 2. Silesia Decompression Performance (Median ± MAD% Dispersion)\n"@,
        "| File Name | Data Type Category | Size | Baseline (`"@ + meta.baseline@ + "`) | Target (`"@ + meta.target@ + "`) | Speedup |"@,
        "| :--- | :--- | :--- | :--- | :--- | :--- |"@,
    ]
}

/// The lines that open the per-file compression section.
pub open spec fn spec_compression_head(meta: EnvMetadata) -> Seq<Seq<char>> {
    seq![
        "\n## 3. Silesia Compression Performance (Median ± MAD% Dispersion)\n"@,
        "| File Name | Data Type Category | Size | Ratio | Baseline (`"@ + meta.baseline@ + "`) | Target (`"@ + meta.target@ + "`) | Speedup |"@,
        "| :--- | :--- | :--- | :--- | :--- | :--- | :--- |"@,
    ]
}

/// All lines of the report, given the rendered rows of its three tables.
pub open spec fn spec_report_lines(meta: EnvMetadata, aggregate: Seq<Seq<char>>, decompression: Seq<Seq<char>>, compression: Seq<Seq<char>>) -> Seq<Seq<char>> {
    spec_header_lines(meta) + aggregate + spec_decompression_head(meta) + decompression
        + spec_compression_head(meta) + compression
}

/// Lays out the Markdown A/B report: the header, then each table's head and rows, one
/// line after another.
pub fn render_report(meta: &EnvMetadata, aggregate: &Vec<String>, decompression: &Vec<String>, compression: &Vec<String>) -> (r: String)
    ensures
        r@ == seq_join(spec_report_lines(*meta, views(aggregate@), views(decompression@), views(compression@)), "\n"@),
{
    let mut lines: Vec<String> = Vec::new();
    let ghost start = views(lines@);
    let mut title = enclose("# Benchmark A/B Report (Iso-Thermal Interleaved): `", meta.baseline.as_str(), "` vs `");
    title.append(meta.target.as_str());
    title.append("`\n");
    push_line(&mut lines, title);
    push_line(&mut lines, String::from_str("### Environment & Benchmark Configuration\n"));
    push_line(&mut lines, String::from_str("| Parameter | Value |"));
    push_line(&mut lines, String::from_str("| :--- | :--- |"));
    push_line(&mut lines, enclose("| **CPU Model** | ", meta.cpu.as_str(), " |"));
    push_line(&mut lines, enclose("| **OS / Kernel** | ", meta.os.as_str(), " |"));
    push_line(&mut lines, enclose("| **Rust Toolchain** | `", meta.rustc.as_str(), "` |"));
    push_line(&mut lines, String::from_str("| **Execution Methodology** | **Iso-Thermal Interleaved A/B (CPU Pinned to Core 2)** |"));
    let mut iters = String::from_str("| **Iterations per File** | **");
    push_decimal(&mut iters, meta.iterations as u64);
    iters.append(" iterations (+ 5 warmup passes)** |");
    push_line(&mut lines, iters);
    push_line(&mut lines, enclose("| **Baseline Ref** | `", meta.baseline.as_str(), "` |"));
    push_line(&mut lines, enclose("| **Target Ref** | `", meta.target.as_str(), "` |\n"));
    push_line(&mut lines, String::from_str("## 1. Overall Aggregate Throughput (Median ± MAD% Dispersion)\n"));
    let mut head = enclose("| Dataset | Operation | Baseline (`", meta.baseline.as_str(), "`) | Target (`");
    head.append(meta.target.as_str());
    head.append("`) | Throughput Delta | Speedup |");
    push_line(&mut lines, head);
    push_line(&mut lines, String::from_str("| :--- | :--- | :--- | :--- | :--- | :--- |"));
    assert(views(lines@) =~= spec_header_lines(*meta));
    push_lines(&mut lines, aggregate);

    let ghost before_dec = views(lines@);
    push_line(&mut lines, String::from_str("\n## 2. Silesia Decompression Performance (Median ± MAD% Dispersion)\n"));
    let mut dhead = enclose("| File Name | Data Type Category | Size | Baseline (`", meta.baseline.as_str(), "`) | Target (`");
    dhead.append(meta.target.as_str());
    dhead.append("`) | Speedup |");
    push_line(&mut lines, dhead);
    push_line(&mut lines, String::from_str("| :--- | :--- | :--- | :--- | :--- | :--- |"));
    assert(views(lines@) =~= before_dec + spec_decompression_head(*meta));
    push_lines(&mut lines, decompression);

    let ghost before_comp = views(lines@);
    push_line(&mut lines, String::from_str("\n## 3. Silesia Compression Performance (Median ± MAD% Dispersion)\n"));
    let mut chead = enclose("| File Name | Data Type Category | Size | Ratio | Baseline (`", meta.baseline.as_str(), "`) | Target (`");
    chead.append(meta.target.as_str());
    chead.append("`) | Speedup |");
    push_line(&mut lines, chead);
    push_line(&mut lines, String::from_str("| :--- | :--- | :--- | :--- | :--- | :--- | :--- |"));
    assert(views(lines@) =~= before_comp + spec_compression_head(*meta));
    push_lines(&mut lines, compression);
    assert(views(lines@) =~= spec_report_lines(*meta, views(aggregate@), views(decompression@), views(compression@)));
    join(&lines, "\n")
}

/// The report's lines are the fourteen header lines, every aggregate row, the three lines
/// that open the decompression table, every decompression row, the three lines that open
/// the compression table and every compression row, each group in the order given.
pub proof fn lemma_report_holds_every_row(meta: EnvMetadata, aggregate: Seq<Seq<char>>, decompression: Seq<Seq<char>>, compression: Seq<Seq<char>>)
    ensures
        ({
            let lines = spec_report_lines(meta, aggregate, decompression, compression);
            let a = aggregate.len() as int;
            let d = decompression.len() as int;
            let c = compression.len() as int;
            &&& lines.len() == 20 + a + d + c
            &&& forall|k: int| 0 <= k < a ==> lines[14 + k] == aggregate[k]
            &&& forall|k: int| 0 <= k < d ==> lines[17 + a + k] == decompression[k]
            &&& forall|k: int| 0 <= k < c ==> lines[20 + a + d + k] == compression[k]
            &&& lines[16 + a] == "| :--- | :--- | :--- | :--- | :--- | :--- |"@
            &&& lines[19 + a + d] == "| :--- | :--- | :--- | :--- | :--- | :--- | :--- |"@
        }),
{
}

proof fn lemma_join_ends_with_last(parts: Seq<Seq<char>>, sep: Seq<char>)
    requires
        parts.len() > 0,
    ensures
        seq_join(parts, sep).len() >= parts.last().len(),
        seq_join(parts, sep).skip(seq_join(parts, sep).len() - parts.last().len()) == parts.last(),
{
    let j = seq_join(parts, sep);
    if parts.len() == 1 {
        assert(j.skip(0) =~= j);
    } else {
        let pre = seq_join(parts.drop_last(), sep) + sep;
        assert(j == pre + parts.last());
        assert(j.skip(j.len() - parts.last().len()) =~= parts.last());
    }
}

/// A report with compression rows ends with the last of them.
pub proof fn lemma_report_ends_with_last_compression_row(meta: EnvMetadata, aggregate: Seq<Seq<char>>, decompression: Seq<Seq<char>>, compression: Seq<Seq<char>>)
    requires
        compression.len() > 0,
    ensures
        ({
            let r = seq_join(spec_report_lines(meta, aggregate, decompression, compression), "\n"@);
            &&& r.len() >= compression.last().len()
            &&& r.skip(r.len() - compression.last().len()) == compression.last()
        }),
{
    let lines = spec_report_lines(meta, aggregate, decompression, compression);
    assert(lines.last() == compression.last());
    lemma_join_ends_with_last(lines, "\n"@);
}

} // verus!
