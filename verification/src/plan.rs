//! Sizes and totals that the benchmark runners work with.

use vstd::prelude::*;

use crate::dataset::DatasetItem;
use crate::engine::magic_at;

verus! {

/// Total size of the reference copies of `items`.
pub open spec fn uncompressed_total(items: Seq<DatasetItem>) -> int
    decreases items.len(),
{
    if items.len() == 0 {
        0
    } else {
        uncompressed_total(items.drop_last()) + items.last().uncompressed@.len()
    }
}

/// Total size of the compressed copies of `items`.
pub open spec fn compressed_total(items: Seq<DatasetItem>) -> int
    decreases items.len(),
{
    if items.len() == 0 {
        0
    } else {
        compressed_total(items.drop_last()) + items.last().compressed@.len()
    }
}

/// The reference and compressed byte totals of a dataset, or `None` when a total does not
/// fit in a `usize`.
pub fn dataset_totals(items: &[DatasetItem]) -> (r: Option<(usize, usize)>)
    ensures
        r matches Some((u, c)) ==> u == uncompressed_total(items@) && c == compressed_total(items@),
        r is None ==> uncompressed_total(items@) > usize::MAX || compressed_total(items@) > usize::MAX,
{
    let n = items.len();
    let mut u: usize = 0;
    let mut c: usize = 0;
    let mut i: usize = 0;
    while i < n
        invariant
            i <= n,
            n == items@.len(),
            u == uncompressed_total(items@.take(i as int)),
            c == compressed_total(items@.take(i as int)),
        decreases n - i,
    {
        assert(items@.take(i + 1).drop_last() =~= items@.take(i as int));
        let nu = u.checked_add(items[i].uncompressed.len());
        let nc = c.checked_add(items[i].compressed.len());
        match (nu, nc) {
            (Some(a), Some(b)) => {
                u = a;
                c = b;
            },
            _ => {
                proof {
                    lemma_totals_grow(items@, i + 1);
                }
                return None;
            },
        }
        i = i + 1;
    }
    assert(items@.take(n as int) =~= items@);
    Some((u, c))
}

proof fn lemma_totals_grow(items: Seq<DatasetItem>, k: int)
    requires
        0 <= k <= items.len(),
    ensures
        uncompressed_total(items.take(k)) <= uncompressed_total(items),
        compressed_total(items.take(k)) <= compressed_total(items),
    decreases items.len(),
{
    if k < items.len() {
        assert(items.drop_last().take(k) =~= items.take(k));
        lemma_totals_grow(items.drop_last(), k);
    } else {
        assert(items.take(k) =~= items);
    }
}

/// The largest of `s`, or `default` when `s` is empty.
pub open spec fn max_or(s: Seq<usize>, default: int) -> int
    decreases s.len(),
{
    if s.len() == 0 {
        default
    } else if s.len() == 1 {
        s[0] as int
    } else {
        let m = max_or(s.drop_last(), default);
        if s.last() > m {
            s.last() as int
        } else {
            m
        }
    }
}

/// The largest length in `lens`, or `default` when there is none.
pub fn largest_or(lens: &Vec<usize>, default: usize) -> (m: usize)
    ensures
        m == max_or(lens@, default as int),
{
    let n = lens.len();
    if n == 0 {
        return default;
    }
    let mut m = lens[0];
    let mut i: usize = 1;
    assert(lens@.take(1) =~= seq![lens@[0]]);
    while i < n
        invariant
            1 <= i <= n,
            n == lens@.len(),
            m == max_or(lens@.take(i as int), default as int),
        decreases n - i,
    {
        assert(lens@.take(i + 1).drop_last() =~= lens@.take(i as int));
        if lens[i] > m {
            m = lens[i];
        }
        i = i + 1;
    }
    assert(lens@.take(n as int) =~= lens@);
    m
}

/// Size assumed for a dataset whose files are unknown: 64 MiB.
pub const DEFAULT_DATA_SIZE: usize = 67108864;

/// Sizes of the reusable decompression and compression buffers for datasets whose files
/// have the given uncompressed lengths: the largest length plus 1 MiB, and the largest
/// length plus 1% plus 1200 bytes.
pub open spec fn spec_work_buffer_sizes(silesia: Seq<usize>, nexrad: Seq<usize>) -> (int, int) {
    let a = max_or(silesia, DEFAULT_DATA_SIZE as int);
    let b = max_or(nexrad, DEFAULT_DATA_SIZE as int);
    let m = if a >= b { a } else { b };
    (m + 1048576, m + m / 100 + 1200)
}

/// The two work-buffer sizes, or `None` when one does not fit in a `usize`.
pub fn work_buffer_sizes(silesia: &Vec<usize>, nexrad: &Vec<usize>) -> (r: Option<(usize, usize)>)
    ensures
        r matches Some((d, c)) ==> (d as int, c as int) == spec_work_buffer_sizes(silesia@, nexrad@),
        r is None ==> spec_work_buffer_sizes(silesia@, nexrad@).0 > usize::MAX
            || spec_work_buffer_sizes(silesia@, nexrad@).1 > usize::MAX,
{
    let a = largest_or(silesia, DEFAULT_DATA_SIZE);
    let b = largest_or(nexrad, DEFAULT_DATA_SIZE);
    let m = if a >= b { a } else { b };
    let d = m.checked_add(1048576);
    let c = match m.checked_add(m / 100) {
        Some(x) => x.checked_add(1200),
        None => None,
    };
    match (d, c) {
        (Some(d), Some(c)) => Some((d, c)),
        _ => None,
    }
}

/// Destination room for compressing `len` bytes: the input length plus 1% plus 600 bytes,
/// or `None` when that does not fit in a `usize`.
pub fn compress_capacity(len: usize) -> (r: Option<usize>)
    ensures
        r matches Some(c) ==> c == len + len / 100 + 600,
        r is None ==> len + len / 100 + 600 > usize::MAX,
{
    match len.checked_add(len / 100) {
        Some(x) => x.checked_add(600),
        None => None,
    }
}

/// Offset of the bzip2 payload in a downloaded NEXRAD volume: the 24-byte volume header
/// and the 4-byte length of the first record precede it.
pub const ARCHIVE_HEADER_LEN: usize = 28;

/// The bzip2 payload of a downloaded NEXRAD volume: what follows the volume header when
/// `BZh` stands right after it, else the whole download.
pub open spec fn spec_archive_payload(bytes: Seq<u8>) -> Seq<u8> {
    if bytes.len() > ARCHIVE_HEADER_LEN && magic_at(bytes, ARCHIVE_HEADER_LEN as int) {
        bytes.skip(ARCHIVE_HEADER_LEN as int)
    } else {
        bytes
    }
}

/// Extracts the bzip2 payload of a downloaded NEXRAD volume. A download of 29 or 30 bytes
/// is outside what the downloader handles (it cannot read three bytes after the header).
pub fn archive_payload(bytes: &[u8]) -> (r: Vec<u8>)
    requires
        bytes@.len() <= ARCHIVE_HEADER_LEN || bytes@.len() >= ARCHIVE_HEADER_LEN + 3,
    ensures
        r@ == spec_archive_payload(bytes@),
{
    let n = bytes.len();
    let start: usize = if n > ARCHIVE_HEADER_LEN && bytes[28] == 0x42u8 && bytes[29] == 0x5au8 && bytes[30] == 0x68u8 {
        ARCHIVE_HEADER_LEN
    } else {
        0
    };
    let mut r: Vec<u8> = Vec::new();
    let mut k = start;
    while k < n
        invariant
            start <= k <= n,
            n == bytes@.len(),
            r@ == bytes@.subrange(start as int, k as int),
        decreases n - k,
    {
        r.push(bytes[k]);
        assert(bytes@.subrange(start as int, k + 1) =~= bytes@.subrange(start as int, k as int).push(bytes@[k as int]));
        k = k + 1;
    }
    assert(bytes@.subrange(start as int, n as int) =~= spec_archive_payload(bytes@));
    r
}

/// Which downloaded volume the `i`-th archive (counting from 1) copies when `base` volumes
/// were downloaded.
pub fn replica_source(i: usize, base: usize) -> (k: usize)
    requires
        i >= 1,
        base > 0,
    ensures
        k == (i - 1) % (base as int),
        k < base,
{
    (i - 1) % base
}

/// Files per worker when `files` files are shared among `workers` workers: the quotient
/// rounded up.
pub fn files_per_worker(files: usize, workers: usize) -> (c: Option<usize>)
    requires
        workers > 0,
    ensures
        c matches Some(x) ==> x == (files + workers - 1) / (workers as int),
        c is None ==> files + workers - 1 > usize::MAX,
{
    match files.checked_add(workers - 1) {
        Some(x) => Some(x / workers),
        None => None,
    }
}

proof fn lemma_max_or(s: Seq<usize>, d: int)
    ensures
        s.len() == 0 ==> max_or(s, d) == d,
        forall|i: int| 0 <= i < s.len() ==> s[i] <= max_or(s, d),
        s.len() > 0 ==> exists|i: int| 0 <= i < s.len() && s[i] == max_or(s, d),
    decreases s.len(),
{
    if s.len() == 1 {
        assert(s[0] == max_or(s, d));
    } else if s.len() > 1 {
        let t = s.drop_last();
        lemma_max_or(t, d);
        assert forall|i: int| 0 <= i < s.len() implies s[i] <= max_or(s, d) by {
            if i < s.len() - 1 {
                assert(s[i] == t[i]);
            }
        }
        if s.last() > max_or(t, d) {
            assert(s[s.len() - 1] == max_or(s, d));
        } else {
            let k = choose|k: int| 0 <= k < t.len() && t[k] == max_or(t, d);
            assert(s[k] == max_or(s, d));
        }
    }
}

/// The decompression buffer is 1 MiB more than a size `m` that is at least every length
/// of either dataset, at least the 64 MiB default when a dataset has no lengths, and is
/// itself one of the lengths or that default; the compression buffer is
/// `m + m / 100 + 1200`.
pub proof fn lemma_work_buffers_cover_every_file(silesia: Seq<usize>, nexrad: Seq<usize>)
    ensures
        ({
            let (d, c) = spec_work_buffer_sizes(silesia, nexrad);
            let m = d - 1048576;
            &&& forall|i: int| 0 <= i < silesia.len() ==> silesia[i] <= m
            &&& forall|i: int| 0 <= i < nexrad.len() ==> nexrad[i] <= m
            &&& (silesia.len() == 0 || nexrad.len() == 0) ==> DEFAULT_DATA_SIZE <= m
            &&& (exists|i: int| 0 <= i < silesia.len() && silesia[i] == m)
                || (exists|i: int| 0 <= i < nexrad.len() && nexrad[i] == m)
                || ((silesia.len() == 0 || nexrad.len() == 0) && m == DEFAULT_DATA_SIZE)
            &&& c == m + m / 100 + 1200
        }),
{
    lemma_max_or(silesia, DEFAULT_DATA_SIZE as int);
    lemma_max_or(nexrad, DEFAULT_DATA_SIZE as int);
}

} // verus!
