# bzip2_benchmarks

A benchmark harness for bzip2 (`libbz2-rs-sys`) over two datasets, the NOAA NEXRAD radar
volumes (multistream archives with 4-byte big-endian headers between streams) and the
Silesia compression corpus, with its decisions verified in Verus.

- `src/` is the verified library:
  - `dataset`: payload categories, the corpus catalogue, NEXRAD names, archive names and
    the pre-flight check that a compressed file decodes to its reference copy;
  - `engine`: where each stream of an archive starts, what the bzip2 library's return
    codes mean, and how read and write positions advance, with the termination argument
    of the multistream loop;
  - `plan`: dataset totals, work-buffer and compression-buffer sizes, the payload of a
    downloaded volume;
  - `args`: the options of the runners;
  - `env`: the CPU model named in `/proc/cpuinfo`;
  - `report`: labels, baseline pairing, table rows and the layout of the A/B report;
  - `text`: characters, decimal numbers (written and parsed), joining and replacing.
- `app/` performs what the library cannot: the `unsafe` calls into `libbz2-rs-sys`, file,
  network and process I/O, timing, floating-point statistics, JSON files, and the runner
  programs (`app/bins`).
- `tests/` exercises the library on concrete values.
