use bzip2_benchmarks::dataset::{DataCategory, DatasetItem};
use bzip2_benchmarks::plan::{
    archive_payload, compress_capacity, dataset_totals, files_per_worker, largest_or,
    replica_source, work_buffer_sizes,
};

fn item(u: usize, c: usize) -> DatasetItem {
    DatasetItem { name: "f".to_string(), category: DataCategory::AsciiText, uncompressed: vec![0; u], compressed: vec![1; c] }
}

#[test]
fn totals() {
    assert_eq!(dataset_totals(&vec![item(10, 3), item(5, 2)]), Some((15, 5)));
    assert_eq!(dataset_totals(&Vec::new()), Some((0, 0)));
}

#[test]
fn buffer_sizes() {
    assert_eq!(largest_or(&vec![3, 9, 4], 1), 9);
    assert_eq!(largest_or(&vec![], 64), 64);
    assert_eq!(work_buffer_sizes(&vec![1000, 5000], &vec![200]), Some((5000 + 1048576, 5000 + 50 + 1200)));
    let default = 64 * 1024 * 1024;
    assert_eq!(work_buffer_sizes(&vec![], &vec![]), Some((default + 1048576, default + default / 100 + 1200)));
    assert_eq!(work_buffer_sizes(&vec![usize::MAX], &vec![]), None);
    assert_eq!(compress_capacity(1000), Some(1000 + 10 + 600));
    assert_eq!(compress_capacity(usize::MAX), None);
}

#[test]
fn payload_and_replicas() {
    let mut download = vec![7u8; 28];
    download.extend_from_slice(b"BZh91AY");
    assert_eq!(archive_payload(&download), b"BZh91AY".to_vec());
    let plain = b"no header here at all, just data bytes".to_vec();
    assert_eq!(archive_payload(&plain), plain);
    assert_eq!(archive_payload(&[1, 2, 3]), vec![1, 2, 3]);
    assert_eq!(replica_source(4, 3), 0);
    assert_eq!(replica_source(30, 3), 2);
    assert_eq!(files_per_worker(30, 8), Some(4));
    assert_eq!(files_per_worker(32, 8), Some(4));
    assert_eq!(files_per_worker(0, 8), Some(0));
    assert_eq!(files_per_worker(usize::MAX, 2), None);
}
