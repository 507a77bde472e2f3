use bzip2_benchmarks::dataset::{
    compressed_name, nexrad_name, nexrad_names, preflight_check, silesia_files,
    validation_failure_message, DataCategory, DatasetItem, FileMeta, Preflight, SilesiaFileId,
};
use bzip2_benchmarks::engine::BzError;

const ALL: [SilesiaFileId; 12] = [
    SilesiaFileId::Dickens,
    SilesiaFileId::Mozilla,
    SilesiaFileId::Mr,
    SilesiaFileId::Nci,
    SilesiaFileId::Ooffice,
    SilesiaFileId::Osdb,
    SilesiaFileId::Reymont,
    SilesiaFileId::Samba,
    SilesiaFileId::Sao,
    SilesiaFileId::Webster,
    SilesiaFileId::Xml,
    SilesiaFileId::XRay,
];

#[test]
fn filenames_match_corpus() {
    assert_eq!(SilesiaFileId::Dickens.filename(), "silesia_dickens");
    assert_eq!(SilesiaFileId::XRay.filename(), "silesia_x-ray");
    assert_eq!(SilesiaFileId::XRay.short_name(), "x-ray");
    assert_eq!(SilesiaFileId::Mr.short_name(), "mr");
    for id in ALL {
        assert_eq!(id.filename(), format!("silesia_{}", id.short_name()));
    }
}

#[test]
fn categories_and_labels() {
    assert_eq!(SilesiaFileId::Dickens.category(), DataCategory::AsciiText);
    assert_eq!(SilesiaFileId::Webster.category(), DataCategory::AsciiText);
    assert_eq!(SilesiaFileId::Mozilla.category(), DataCategory::TarExecutable);
    assert_eq!(SilesiaFileId::Samba.category(), DataCategory::SourceCode);
    assert_eq!(SilesiaFileId::XRay.category(), DataCategory::MedicalXRay);
    assert_eq!(SilesiaFileId::Sao.category().label(), "Binary Catalog");
    assert_eq!(DataCategory::RadarArchive.label(), "Radar Binary Archive");
    assert_eq!(DataCategory::ChemistryDb.label(), "Text (Chem DB)");
    assert_eq!(DataCategory::X86Executable.label(), "x86 Executable");
}

#[test]
fn catalogue_lists_each_file_once_in_order() {
    let files = silesia_files();
    assert_eq!(files.len(), 12);
    for (meta, id) in files.iter().zip(ALL.iter()) {
        let expected = FileMeta { id: *id, name: id.filename(), category: id.category() };
        assert_eq!(*meta, expected);
    }
    assert_eq!(files[11].name, "silesia_x-ray");
}

#[test]
fn nexrad_names_count_from_one() {
    assert_eq!(nexrad_name(1), "nexrad1");
    assert_eq!(nexrad_name(30), "nexrad30");
    let names = nexrad_names();
    assert_eq!(names.len(), 30);
    assert_eq!(names[0], "nexrad1");
    assert_eq!(names[9], "nexrad10");
    assert_eq!(names[29], "nexrad30");
    assert_eq!(compressed_name("nexrad7"), "nexrad7.bz2");
    assert_eq!(compressed_name("silesia_xml"), "silesia_xml.bz2");
}

#[test]
fn preflight_verdicts() {
    let work = vec![1u8, 2, 3, 4, 9, 9];
    assert_eq!(preflight_check(Ok(4), &work, &[1, 2, 3, 4]), Preflight::Valid);
    assert_eq!(preflight_check(Ok(0), &work, &[]), Preflight::Valid);
    assert_eq!(
        preflight_check(Ok(3), &work, &[1, 2, 3, 4]),
        Preflight::LengthMismatch { decoded: 3, expected: 4 }
    );
    assert_eq!(preflight_check(Ok(4), &work, &[1, 2, 3, 5]), Preflight::ContentMismatch);
    assert_eq!(
        preflight_check(Err(BzError::DecompressFailed(-4)), &work, &[1]),
        Preflight::DecodeFailed(BzError::DecompressFailed(-4))
    );
}

#[test]
fn validation_failure_text() {
    assert_eq!(
        validation_failure_message("silesia_mr", &BzError::StreamFailed(-4)),
        "Validation failure on silesia_mr: BZ2_bzDecompress returned error code -4"
    );
}

#[test]
fn dataset_item_holds_its_bytes() {
    let item = DatasetItem {
        name: "nexrad1".to_string(),
        category: DataCategory::RadarArchive,
        uncompressed: vec![1, 2, 3],
        compressed: vec![9],
    };
    let copy = item.clone();
    assert_eq!(copy.name, "nexrad1");
    assert_eq!(copy.uncompressed, vec![1, 2, 3]);
}
