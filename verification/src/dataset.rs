//! Dataset catalogue: payload categories and the canonical Silesia corpus files.

use vstd::prelude::*;

use crate::engine::BzError;
use crate::text::{chars_of, lemma_parse_of_decimal, push_char, push_decimal, spec_decimal, starts_with};

verus! {

/// Semantic category of the data payload.
#[derive(Debug, Clone, Copy, PartialEq, Eq, Hash, Structural)]
pub enum DataCategory {
    AsciiText,
    TarExecutable,
    MedicalMri,
    MedicalXRay,
    ChemistryDb,
    X86Executable,
    DatabaseBinary,
    DocumentPdf,
    SourceCode,
    BinaryCatalog,
    XmlMarkup,
    RadarArchive,
}

impl DataCategory {
    /// The human-readable label of a category.
    pub open spec fn spec_label(self) -> Seq<char> {
        match self {
            DataCategory::AsciiText => "Text (ASCII)"@,
            DataCategory::TarExecutable => "Tar / Executables"@,
            DataCategory::MedicalMri => "Medical (MRI)"@,
            DataCategory::MedicalXRay => "Medical (X-Ray)"@,
            DataCategory::ChemistryDb => "Text (Chem DB)"@,
            DataCategory::X86Executable => "x86 Executable"@,
            DataCategory::DatabaseBinary => "DB Binary"@,
            DataCategory::DocumentPdf => "PDF Document"@,
            DataCategory::SourceCode => "Tar / C Source"@,
            DataCategory::BinaryCatalog => "Binary Catalog"@,
            DataCategory::XmlMarkup => "XML Markup"@,
            DataCategory::RadarArchive => "Radar Binary Archive"@,
        }
    }

    /// The label under which the category is displayed.
    pub fn label(&self) -> (l: &'static str)
        ensures
            l@ == self.spec_label(),
    {
        match self {
            DataCategory::AsciiText => "Text (ASCII)",
            DataCategory::TarExecutable => "Tar / Executables",
            DataCategory::MedicalMri => "Medical (MRI)",
            DataCategory::MedicalXRay => "Medical (X-Ray)",
            DataCategory::ChemistryDb => "Text (Chem DB)",
            DataCategory::X86Executable => "x86 Executable",
            DataCategory::DatabaseBinary => "DB Binary",
            DataCategory::DocumentPdf => "PDF Document",
            DataCategory::SourceCode => "Tar / C Source",
            DataCategory::BinaryCatalog => "Binary Catalog",
            DataCategory::XmlMarkup => "XML Markup",
            DataCategory::RadarArchive => "Radar Binary Archive",
        }
    }
}


/// Enumeration of canonical Silesia Corpus benchmark files.
#[derive(Debug, Clone, Copy, PartialEq, Eq, Hash, Structural)]
pub enum SilesiaFileId {
    Dickens,
    Mozilla,
    Mr,
    Nci,
    Ooffice,
    Osdb,
    Reymont,
    Samba,
    Sao,
    Webster,
    Xml,
    XRay,
}

impl SilesiaFileId {
    /// Name of the file on disk (reference copy; the compressed copy adds `.bz2`).
    pub open spec fn spec_filename(self) -> Seq<char> {
        match self {
            SilesiaFileId::Dickens => "silesia_dickens"@,
            SilesiaFileId::Mozilla => "silesia_mozilla"@,
            SilesiaFileId::Mr => "silesia_mr"@,
            SilesiaFileId::Nci => "silesia_nci"@,
            SilesiaFileId::Ooffice => "silesia_ooffice"@,
            SilesiaFileId::Osdb => "silesia_osdb"@,
            SilesiaFileId::Reymont => "silesia_reymont"@,
            SilesiaFileId::Samba => "silesia_samba"@,
            SilesiaFileId::Sao => "silesia_sao"@,
            SilesiaFileId::Webster => "silesia_webster"@,
            SilesiaFileId::Xml => "silesia_xml"@,
            SilesiaFileId::XRay => "silesia_x-ray"@,
        }
    }

    /// Name of the file on disk.
    pub fn filename(self) -> (s: &'static str)
        ensures
            s@ == self.spec_filename(),
    {
        match self {
            SilesiaFileId::Dickens => "silesia_dickens",
            SilesiaFileId::Mozilla => "silesia_mozilla",
            SilesiaFileId::Mr => "silesia_mr",
            SilesiaFileId::Nci => "silesia_nci",
            SilesiaFileId::Ooffice => "silesia_ooffice",
            SilesiaFileId::Osdb => "silesia_osdb",
            SilesiaFileId::Reymont => "silesia_reymont",
            SilesiaFileId::Samba => "silesia_samba",
            SilesiaFileId::Sao => "silesia_sao",
            SilesiaFileId::Webster => "silesia_webster",
            SilesiaFileId::Xml => "silesia_xml",
            SilesiaFileId::XRay => "silesia_x-ray",
        }
    }

    /// Corpus name of the file, without the dataset prefix.
    pub open spec fn spec_short_name(self) -> Seq<char> {
        match self {
            SilesiaFileId::Dickens => "dickens"@,
            SilesiaFileId::Mozilla => "mozilla"@,
            SilesiaFileId::Mr => "mr"@,
            SilesiaFileId::Nci => "nci"@,
            SilesiaFileId::Ooffice => "ooffice"@,
            SilesiaFileId::Osdb => "osdb"@,
            SilesiaFileId::Reymont => "reymont"@,
            SilesiaFileId::Samba => "samba"@,
            SilesiaFileId::Sao => "sao"@,
            SilesiaFileId::Webster => "webster"@,
            SilesiaFileId::Xml => "xml"@,
            SilesiaFileId::XRay => "x-ray"@,
        }
    }

    /// Corpus name of the file, without the dataset prefix.
    pub fn short_name(self) -> (s: &'static str)
        ensures
            s@ == self.spec_short_name(),
    {
        match self {
            SilesiaFileId::Dickens => "dickens",
            SilesiaFileId::Mozilla => "mozilla",
            SilesiaFileId::Mr => "mr",
            SilesiaFileId::Nci => "nci",
            SilesiaFileId::Ooffice => "ooffice",
            SilesiaFileId::Osdb => "osdb",
            SilesiaFileId::Reymont => "reymont",
            SilesiaFileId::Samba => "samba",
            SilesiaFileId::Sao => "sao",
            SilesiaFileId::Webster => "webster",
            SilesiaFileId::Xml => "xml",
            SilesiaFileId::XRay => "x-ray",
        }
    }

    /// Category of the payload held by the file.
    pub open spec fn spec_category(self) -> DataCategory {
        match self {
            SilesiaFileId::Dickens => DataCategory::AsciiText,
            SilesiaFileId::Mozilla => DataCategory::TarExecutable,
            SilesiaFileId::Mr => DataCategory::MedicalMri,
            SilesiaFileId::Nci => DataCategory::ChemistryDb,
            SilesiaFileId::Ooffice => DataCategory::X86Executable,
            SilesiaFileId::Osdb => DataCategory::DatabaseBinary,
            SilesiaFileId::Reymont => DataCategory::DocumentPdf,
            SilesiaFileId::Samba => DataCategory::SourceCode,
            SilesiaFileId::Sao => DataCategory::BinaryCatalog,
            SilesiaFileId::Webster => DataCategory::AsciiText,
            SilesiaFileId::Xml => DataCategory::XmlMarkup,
            SilesiaFileId::XRay => DataCategory::MedicalXRay,
        }
    }

    /// Category of the payload held by the file.
    pub fn category(self) -> (c: DataCategory)
        ensures
            c == self.spec_category(),
    {
        match self {
            SilesiaFileId::Dickens => DataCategory::AsciiText,
            SilesiaFileId::Mozilla => DataCategory::TarExecutable,
            SilesiaFileId::Mr => DataCategory::MedicalMri,
            SilesiaFileId::Nci => DataCategory::ChemistryDb,
            SilesiaFileId::Ooffice => DataCategory::X86Executable,
            SilesiaFileId::Osdb => DataCategory::DatabaseBinary,
            SilesiaFileId::Reymont => DataCategory::DocumentPdf,
            SilesiaFileId::Samba => DataCategory::SourceCode,
            SilesiaFileId::Sao => DataCategory::BinaryCatalog,
            SilesiaFileId::Webster => DataCategory::AsciiText,
            SilesiaFileId::Xml => DataCategory::XmlMarkup,
            SilesiaFileId::XRay => DataCategory::MedicalXRay,
        }
    }
}

/// The twelve corpus files in their canonical order.
pub open spec fn silesia_order() -> Seq<SilesiaFileId> {
    seq![
        SilesiaFileId::Dickens,
        SilesiaFileId::Mozilla,
        SilesiaFileId::Mr,
        SilesiaFileId::Nci,
        SilesiaFileId::Ooffice,
        SilesiaFileId::Osdb,
        SilesiaFileId::Reymont,
        SilesiaFileId::Samba,
        SilesiaFileId::Sao,
        SilesiaFileId::Webster,
        SilesiaFileId::Xml,
        SilesiaFileId::XRay,
    ]
}

/// Canonical metadata for a benchmark test file.
#[derive(Debug, Clone, Copy, PartialEq, Eq)]
pub struct FileMeta {
    pub id: SilesiaFileId,
    pub name: &'static str,
    pub category: DataCategory,
}

impl FileMeta {
    /// The entry that the catalogue holds for `id`.
    pub open spec fn describes(self, id: SilesiaFileId) -> bool {
        &&& self.id == id
        &&& self.name@ == id.spec_filename()
        &&& self.category == id.spec_category()
    }

    /// Builds the catalogue entry of a corpus file.
    pub fn of(id: SilesiaFileId) -> (m: FileMeta)
        ensures
            m.describes(id),
    {
        FileMeta { id, name: id.filename(), category: id.category() }
    }
}

/// The canonical twelve-file Silesia Compression Corpus list.
pub fn silesia_files() -> (v: Vec<FileMeta>)
    ensures
        v@.len() == silesia_order().len(),
        forall|i: int| 0 <= i < v@.len() ==> (#[trigger] v@[i]).describes(silesia_order()[i]),
{
    let mut v: Vec<FileMeta> = Vec::new();
    v.push(FileMeta::of(SilesiaFileId::Dickens));
    v.push(FileMeta::of(SilesiaFileId::Mozilla));
    v.push(FileMeta::of(SilesiaFileId::Mr));
    v.push(FileMeta::of(SilesiaFileId::Nci));
    v.push(FileMeta::of(SilesiaFileId::Ooffice));
    v.push(FileMeta::of(SilesiaFileId::Osdb));
    v.push(FileMeta::of(SilesiaFileId::Reymont));
    v.push(FileMeta::of(SilesiaFileId::Samba));
    v.push(FileMeta::of(SilesiaFileId::Sao));
    v.push(FileMeta::of(SilesiaFileId::Webster));
    v.push(FileMeta::of(SilesiaFileId::Xml));
    v.push(FileMeta::of(SilesiaFileId::XRay));
    v
}

/// Every file name on disk is the corpus name behind the `silesia_` prefix.
pub proof fn lemma_filename_is_prefixed_short_name(id: SilesiaFileId)
    ensures
        id.spec_filename() == "silesia_"@ + id.spec_short_name(),
{
    reveal_strlit("silesia_");
    match id {
        SilesiaFileId::Dickens => {
            reveal_strlit("silesia_dickens");
            reveal_strlit("dickens");
            assert(id.spec_filename() =~= "silesia_"@ + id.spec_short_name());
        },
        SilesiaFileId::Mozilla => {
            reveal_strlit("silesia_mozilla");
            reveal_strlit("mozilla");
            assert(id.spec_filename() =~= "silesia_"@ + id.spec_short_name());
        },
        SilesiaFileId::Mr => {
            reveal_strlit("silesia_mr");
            reveal_strlit("mr");
            assert(id.spec_filename() =~= "silesia_"@ + id.spec_short_name());
        },
        SilesiaFileId::Nci => {
            reveal_strlit("silesia_nci");
            reveal_strlit("nci");
            assert(id.spec_filename() =~= "silesia_"@ + id.spec_short_name());
        },
        SilesiaFileId::Ooffice => {
            reveal_strlit("silesia_ooffice");
            reveal_strlit("ooffice");
            assert(id.spec_filename() =~= "silesia_"@ + id.spec_short_name());
        },
        SilesiaFileId::Osdb => {
            reveal_strlit("silesia_osdb");
            reveal_strlit("osdb");
            assert(id.spec_filename() =~= "silesia_"@ + id.spec_short_name());
        },
        SilesiaFileId::Reymont => {
            reveal_strlit("silesia_reymont");
            reveal_strlit("reymont");
            assert(id.spec_filename() =~= "silesia_"@ + id.spec_short_name());
        },
        SilesiaFileId::Samba => {
            reveal_strlit("silesia_samba");
            reveal_strlit("samba");
            assert(id.spec_filename() =~= "silesia_"@ + id.spec_short_name());
        },
        SilesiaFileId::Sao => {
            reveal_strlit("silesia_sao");
            reveal_strlit("sao");
            assert(id.spec_filename() =~= "silesia_"@ + id.spec_short_name());
        },
        SilesiaFileId::Webster => {
            reveal_strlit("silesia_webster");
            reveal_strlit("webster");
            assert(id.spec_filename() =~= "silesia_"@ + id.spec_short_name());
        },
        SilesiaFileId::Xml => {
            reveal_strlit("silesia_xml");
            reveal_strlit("xml");
            assert(id.spec_filename() =~= "silesia_"@ + id.spec_short_name());
        },
        SilesiaFileId::XRay => {
            reveal_strlit("silesia_x-ray");
            reveal_strlit("x-ray");
            assert(id.spec_filename() =~= "silesia_"@ + id.spec_short_name());
        },
    }
}

/// The catalogue lists every corpus file exactly once.
pub proof fn lemma_catalogue_lists_each_file_once(id: SilesiaFileId)
    ensures
        silesia_order().contains(id),
        forall|i: int, j: int|
            0 <= i < j < silesia_order().len() ==> silesia_order()[i] != silesia_order()[j],
{
    match id {
        SilesiaFileId::Dickens => assert(silesia_order()[0] == id),
        SilesiaFileId::Mozilla => assert(silesia_order()[1] == id),
        SilesiaFileId::Mr => assert(silesia_order()[2] == id),
        SilesiaFileId::Nci => assert(silesia_order()[3] == id),
        SilesiaFileId::Ooffice => assert(silesia_order()[4] == id),
        SilesiaFileId::Osdb => assert(silesia_order()[5] == id),
        SilesiaFileId::Reymont => assert(silesia_order()[6] == id),
        SilesiaFileId::Samba => assert(silesia_order()[7] == id),
        SilesiaFileId::Sao => assert(silesia_order()[8] == id),
        SilesiaFileId::Webster => assert(silesia_order()[9] == id),
        SilesiaFileId::Xml => assert(silesia_order()[10] == id),
        SilesiaFileId::XRay => assert(silesia_order()[11] == id),
    }
}

/// Preloaded in-memory representation of a benchmark test case.
#[derive(Debug, Clone)]
pub struct DatasetItem {
    pub name: String,
    pub category: DataCategory,
    pub uncompressed: Vec<u8>,
    pub compressed: Vec<u8>,
}

/// Name of the `i`-th NOAA NEXRAD volume archive (counting from 1).
pub open spec fn spec_nexrad_name(i: nat) -> Seq<char> {
    "nexrad"@ + spec_decimal(i)
}

/// Name of the `i`-th NEXRAD volume archive.
pub fn nexrad_name(i: u64) -> (name: String)
    ensures
        name@ == spec_nexrad_name(i as nat),
{
    let mut name = String::from_str("nexrad");
    push_decimal(&mut name, i);
    name
}

/// Distinct volume numbers give distinct volume names.
pub proof fn lemma_nexrad_names_distinct(i: nat, j: nat)
    requires
        i != j,
        i <= usize::MAX,
        j <= usize::MAX,
    ensures
        spec_nexrad_name(i) != spec_nexrad_name(j),
{
    if spec_nexrad_name(i) == spec_nexrad_name(j) {
        let p = "nexrad"@;
        assert(spec_nexrad_name(i).skip(p.len() as int) =~= spec_decimal(i));
        assert(spec_nexrad_name(j).skip(p.len() as int) =~= spec_decimal(j));
        lemma_parse_of_decimal(i);
        lemma_parse_of_decimal(j);
    }
}

/// Number of NEXRAD volume archives in the dataset.
pub open spec fn nexrad_count() -> nat {
    30
}

/// Names of the NEXRAD volume archives, `nexrad1` to `nexrad30`, in order.
pub fn nexrad_names() -> (names: Vec<String>)
    ensures
        names@.len() == nexrad_count(),
        forall|k: int| 0 <= k < names@.len() ==> (#[trigger] names@[k])@ == spec_nexrad_name((k + 1) as nat),
{
    let mut names: Vec<String> = Vec::new();
    let mut i: u64 = 1;
    while i <= 30
        invariant
            1 <= i <= 31,
            names@.len() == i - 1,
            forall|k: int| 0 <= k < names@.len() ==> (#[trigger] names@[k])@ == spec_nexrad_name((k + 1) as nat),
        decreases 31 - i,
    {
        names.push(nexrad_name(i));
        i = i + 1;
    }
    names
}

/// Name of the compressed copy of a dataset file.
pub fn compressed_name(name: &str) -> (c: String)
    ensures
        c@ == name@ + ".bz2"@,
{
    let mut c = String::from_str(name);
    c.append(".bz2");
    c
}

/// The verdict of the pre-flight check that a compressed file decodes to its reference copy.
#[derive(Debug, Clone, Copy, PartialEq, Eq, Structural)]
pub enum Preflight {
    /// The decoded bytes are exactly the reference bytes.
    Valid,
    /// Decompression failed.
    DecodeFailed(BzError),
    /// Decompression wrote `decoded` bytes where the reference holds `expected`.
    LengthMismatch { decoded: usize, expected: usize },
    /// The lengths agree but the bytes differ.
    ContentMismatch,
}

/// The pre-flight verdict for a decompression result `decoded` (bytes written to `work`)
/// against the reference bytes.
pub open spec fn spec_preflight(decoded: Result<usize, BzError>, work: Seq<u8>, reference: Seq<u8>) -> Preflight {
    match decoded {
        Err(e) => Preflight::DecodeFailed(e),
        Ok(n) => if n != reference.len() {
            Preflight::LengthMismatch { decoded: n, expected: reference.len() as usize }
        } else if work.take(n as int) != reference {
            Preflight::ContentMismatch
        } else {
            Preflight::Valid
        },
    }
}

/// Checks a decompression result against the reference copy of the file.
pub fn preflight_check(decoded: Result<usize, BzError>, work: &[u8], reference: &[u8]) -> (p: Preflight)
    requires
        decoded matches Ok(n) ==> n <= work@.len(),
    ensures
        p == spec_preflight(decoded, work@, reference@),
{
    match decoded {
        Err(e) => Preflight::DecodeFailed(e),
        Ok(n) => {
            if n != reference.len() {
                return Preflight::LengthMismatch { decoded: n, expected: reference.len() };
            }
            let mut k: usize = 0;
            while k < n
                invariant
                    k <= n,
                    decoded == Ok::<usize, BzError>(n),
                    n == reference@.len(),
                    n <= work@.len(),
                    forall|j: int| 0 <= j < k ==> work@[j] == reference@[j],
                decreases n - k,
            {
                if work[k] != reference[k] {
                    assert(work@.take(n as int)[k as int] != reference@[k as int]);
                    return Preflight::ContentMismatch;
                }
                k = k + 1;
            }
            assert(work@.take(n as int) =~= reference@);
            Preflight::Valid
        },
    }
}

/// The text reported when a dataset file fails to decompress during pre-flight.
pub fn validation_failure_message(name: &str, e: &BzError) -> (m: String)
    ensures
        m@ == "Validation failure on "@ + name@ + ": "@ + e.spec_message(),
{
    let mut m = String::from_str("Validation failure on ");
    m.append(name);
    m.append(": ");
    let detail = e.message();
    m.append(detail.as_str());
    m
}

impl SilesiaFileId {
    /// The payload type that the throughput runners print for the file; it is the category
    /// label except for `webster`, which they call a dictionary.
    pub open spec fn spec_runner_label(self) -> Seq<char> {
        match self {
            SilesiaFileId::Webster => "Text (Dictionary)"@,
            _ => self.spec_category().spec_label(),
        }
    }

    /// The payload type that the throughput runners print for the file.
    pub fn runner_label(self) -> (l: &'static str)
        ensures
            l@ == self.spec_runner_label(),
    {
        match self {
            SilesiaFileId::Webster => "Text (Dictionary)",
            _ => self.category().label(),
        }
    }
}

/// Whether a file name is a compressed archive of a dataset whose names start with
/// `prefix`: it starts with `prefix` and its extension, as `Path::extension` reads it, is
/// `bz2` (the name ends in `.bz2` with something before the dot).
pub open spec fn spec_is_archive_of(name: Seq<char>, prefix: Seq<char>) -> bool {
    &&& prefix.len() <= name.len()
    &&& name.take(prefix.len() as int) == prefix
    &&& name.len() > 4
    &&& name.skip(name.len() - 4) == ".bz2"@
}

/// Whether `name` is a compressed archive of the dataset whose names start with `prefix`.
pub fn is_archive_of(name: &str, prefix: &str) -> (b: bool)
    ensures
        b == spec_is_archive_of(name@, prefix@),
{
    proof {
        reveal_strlit(".bz2");
    }
    if !starts_with(name, prefix) {
        return false;
    }
    let v = chars_of(name);
    let n = v.len();
    if n <= 4 {
        return false;
    }
    let r = v[n - 4] == '.' && v[n - 3] == 'b' && v[n - 2] == 'z' && v[n - 1] == '2';
    proof {
        let tail = v@.skip(n - 4);
        if r {
            assert(tail =~= ".bz2"@);
        } else if tail == ".bz2"@ {
            assert(tail[0] == '.' && tail[1] == 'b' && tail[2] == 'z' && tail[3] == '2');
        }
    }
    r
}

/// The reference file name of an archive: the name without its `.bz2` extension, as
/// `Path::file_stem` gives it.
pub fn archive_stem(name: &str) -> (stem: String)
    requires
        name@.len() > 4,
        name@.skip(name@.len() - 4) == ".bz2"@,
    ensures
        stem@ == name@.take(name@.len() - 4),
{
    let v = chars_of(name);
    let n = v.len() - 4;
    let mut stem = String::new();
    let mut k: usize = 0;
    while k < n
        invariant
            k <= n,
            n + 4 == v@.len(),
            stem@ == v@.take(k as int),
        decreases n - k,
    {
        push_char(&mut stem, v[k]);
        assert(v@.take(k + 1) =~= v@.take(k as int).push(v@[k as int]));
        k = k + 1;
    }
    stem
}

/// When decompression wrote exactly as many bytes as the reference holds, the file passes
/// pre-flight exactly when every one of those bytes equals the reference byte; otherwise
/// it is a content mismatch.
pub proof fn lemma_preflight_compares_every_byte(n: usize, work: Seq<u8>, reference: Seq<u8>)
    requires
        n == reference.len(),
        n <= work.len(),
    ensures
        (spec_preflight(Ok(n), work, reference) == Preflight::Valid)
            <==> (forall|j: int| 0 <= j < n ==> work[j] == reference[j]),
        (exists|j: int| 0 <= j < n && work[j] != reference[j])
            ==> spec_preflight(Ok(n), work, reference) == Preflight::ContentMismatch,
{
    if forall|j: int| 0 <= j < n ==> work[j] == reference[j] {
        assert(work.take(n as int) =~= reference);
    } else {
        let j = choose|j: int| 0 <= j < n && work[j] != reference[j];
        assert(work.take(n as int)[j] != reference[j]);
    }
}

} // verus!
