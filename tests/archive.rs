use sqlar::{
    compress, decompress, entry_from_metadata, entry_from_row, is_safe_name, list_row, plan_extraction, ratio_tenths,
    Action, CodecError, Entry, FileType, Row, RowError,
};

fn noise(n: usize) -> Vec<u8> {
    let mut x: u32 = 0x1234_5678;
    let mut out = Vec::with_capacity(n);
    for _ in 0..n {
        x ^= x << 13;
        x ^= x >> 17;
        x ^= x << 5;
        out.push((x >> 24) as u8);
    }
    out
}

fn file_row(name: &str, content: &[u8]) -> Row {
    Row::from_object(name.to_string(), 0o100644, Some(1_600_000_000), content.to_vec())
}

fn entry(name: &str, filetype: FileType, data: Option<Vec<u8>>) -> Entry {
    Entry {
        name: name.to_string(),
        mode: 0o644,
        filetype,
        mtime: 7,
        size: data.as_ref().map(|d| d.len()).unwrap_or(0),
        compressed_size: 0,
        data,
    }
}

#[test]
fn zeros_compress_and_come_back() {
    let zeros = vec![0u8; 1024];
    let stored = compress(&zeros);
    assert!(stored.len() < 100);
    assert_eq!(stored[0], 0x78);
    assert_eq!(decompress(&stored, 1024), Ok(zeros));
}

#[test]
fn short_text_is_stored_as_is() {
    let hello = b"hello".to_vec();
    let stored = compress(&hello);
    assert_eq!(stored, hello);
    assert_eq!(decompress(&stored, 5), Ok(hello));
}

#[test]
fn empty_payload_round_trips() {
    let stored = compress(&Vec::new());
    assert!(stored.is_empty());
    assert_eq!(decompress(&stored, 0), Ok(Vec::new()));
}

#[test]
fn incompressible_payload_round_trips() {
    let data = noise(4096);
    let stored = compress(&data);
    assert_eq!(stored.len(), data.len());
    assert_eq!(stored, data);
    assert_eq!(decompress(&stored, 4096), Ok(data));
}

#[test]
fn text_payload_round_trips() {
    let data = b"abcabcabcabcabcabcabcabcabcabcabcabcabcabcabcabc".repeat(20);
    let stored = compress(&data);
    assert!(stored.len() < data.len());
    assert_eq!(decompress(&stored, data.len() as i64), Ok(data));
}

#[test]
fn non_positive_size_returns_stored_bytes() {
    let stored = vec![9u8, 8, 7];
    assert_eq!(decompress(&stored, 0), Ok(stored.clone()));
    assert_eq!(decompress(&stored, -4), Ok(stored));
}

#[test]
fn malformed_stream_is_an_error() {
    assert_eq!(decompress(&vec![1u8, 2, 3], 10), Err(CodecError::Corrupt));
}

#[test]
fn filetype_from_mode_bits() {
    assert_eq!(FileType::from(0o100644u32), FileType::File);
    assert_eq!(FileType::from(0o040755u32), FileType::Dir);
    assert_eq!(FileType::from(0o120777u32), FileType::Unsupported);
    assert_eq!(FileType::from(0o644u32), FileType::Unsupported);
}

#[test]
fn file_row_records_object() {
    let row = file_row("a.txt", b"hello");
    assert_eq!(row.name, "a.txt");
    assert_eq!(row.mode, 0o100644);
    assert_eq!(row.mtime, 1_600_000_000);
    assert_eq!(row.sz, 5);
    assert_eq!(row.data, Some(b"hello".to_vec()));
}

#[test]
fn directory_row_has_no_payload() {
    let row = Row::from_object("sub".to_string(), 0o040755, Some(3), b"ignored".to_vec());
    assert_eq!(row.sz, 0);
    assert_eq!(row.data, None);
}

#[test]
fn unknown_mtime_falls_back_to_epoch() {
    let row = Row::from_object("x".to_string(), 0o100600, None, vec![]);
    assert_eq!(row.mtime, 0);
    let row = Row::from_object("x".to_string(), 0o100600, Some(u64::MAX), vec![]);
    assert_eq!(row.mtime, 0);
}

#[test]
fn full_read_decodes_payload() {
    let zeros = vec![0u8; 1024];
    let row = file_row("sub/b.bin", &zeros);
    let stored = row.data.as_ref().unwrap().len();
    let e = entry_from_row(row, true).unwrap();
    assert_eq!(e.name, "sub/b.bin");
    assert_eq!(e.mode, 0o644);
    assert_eq!(e.filetype, FileType::File);
    assert_eq!(e.size, 1024);
    assert_eq!(e.compressed_size, stored);
    assert_eq!(e.data, Some(zeros));
}

#[test]
fn metadata_read_leaves_payload_out() {
    let row = file_row("a.txt", b"hello");
    let e = entry_from_row(row, false).unwrap();
    assert_eq!(e.compressed_size, 5);
    assert_eq!(e.data, None);
}

#[test]
fn negative_size_is_refused() {
    let row = Row { name: "x".to_string(), mode: 0o100644, mtime: 0, sz: -1, data: None };
    assert_eq!(entry_from_row(row, false).err(), Some(RowError::NegativeSize));
}

#[test]
fn corrupt_payload_is_refused_when_decoded() {
    let row = Row {
        name: "x".to_string(),
        mode: 0o100644,
        mtime: 0,
        sz: 10,
        data: Some(vec![1, 2, 3]),
    };
    assert_eq!(entry_from_row(row, true).err(), Some(RowError::Corrupt));
    let row = Row {
        name: "x".to_string(),
        mode: 0o100644,
        mtime: 0,
        sz: 10,
        data: Some(vec![1, 2, 3]),
    };
    assert_eq!(entry_from_row(row, false).unwrap().compressed_size, 3);
}

#[test]
fn safe_names() {
    assert!(is_safe_name("a.txt"));
    assert!(is_safe_name("sub/b.bin"));
    assert!(is_safe_name("a..b/..c"));
    assert!(is_safe_name(""));
    assert!(!is_safe_name("/etc/passwd"));
    assert!(!is_safe_name(".."));
    assert!(!is_safe_name("../x"));
    assert!(!is_safe_name("a/../../b"));
    assert!(!is_safe_name("a/.."));
}

#[test]
fn absolute_entry_is_skipped() {
    let e = entry("/etc/passwd", FileType::File, Some(b"root".to_vec()));
    assert!(matches!(plan_extraction(&e), Action::SkipUnsafeName));
}

#[test]
fn parent_segment_entry_is_skipped() {
    let e = entry("x/../../evil", FileType::File, Some(b"root".to_vec()));
    assert!(matches!(plan_extraction(&e), Action::SkipUnsafeName));
}

#[test]
fn unsupported_entry_is_skipped() {
    let e = entry("link", FileType::Unsupported, None);
    assert!(matches!(plan_extraction(&e), Action::SkipUnsupported));
}

#[test]
fn directory_entry_is_created() {
    match plan_extraction(&entry("sub", FileType::Dir, None)) {
        Action::MakeDir { name, mode, mtime } => {
            assert_eq!(name, "sub");
            assert_eq!(mode, 0o644);
            assert_eq!(mtime, 7);
        }
        other => panic!("unexpected action {:?}", other),
    }
}

#[test]
fn file_without_payload_is_written_empty() {
    match plan_extraction(&entry("empty", FileType::File, None)) {
        Action::WriteFile { name, contents, .. } => {
            assert_eq!(name, "empty");
            assert!(contents.is_empty());
        }
        other => panic!("unexpected action {:?}", other),
    }
}

#[test]
fn ratio_of_400_out_of_1000() {
    assert_eq!(ratio_tenths(400, 1000), 400);
    assert_eq!(ratio_tenths(1, 3), 333);
    assert_eq!(ratio_tenths(2, 3), 667);
    assert_eq!(ratio_tenths(5, 5), 1000);
    assert_eq!(ratio_tenths(0, 0), 0);
}

#[test]
fn listing_shows_entry() {
    let mut e = entry("big", FileType::File, None);
    e.size = 1000;
    e.compressed_size = 400;
    e.mtime = 1431648000;
    let r = list_row(&e);
    assert_eq!(r.name, "big");
    assert_eq!(r.filetype, FileType::File);
    assert_eq!(r.mode, 0o644);
    assert_eq!(r.size, 1000);
    assert_eq!(r.ratio_tenths, 400);
    assert_eq!(r.modified.as_deref(), Some("2015-05-15 00:00:00 UTC"));
    assert_eq!(e.compressed_size, 400);
    assert_eq!(e.name, "big");
}

#[test]
fn listing_directory_has_zero_ratio() {
    let mut e = entry("sub", FileType::Dir, None);
    e.compressed_size = 3;
    e.size = 1;
    e.mtime = 0;
    let r = list_row(&e);
    assert_eq!(r.ratio_tenths, 0);
    assert_eq!(r.modified.as_deref(), Some("1970-01-01 00:00:00 UTC"));
}

#[test]
fn listing_out_of_range_time() {
    let mut e = entry("x", FileType::File, None);
    e.mtime = i64::MAX;
    assert_eq!(list_row(&e).modified, None);
}

fn archive_and_extract(name: &str, mode: u32, content: &[u8]) -> (usize, Action) {
    let row = Row::from_object(name.to_string(), mode, Some(1_700_000_000), content.to_vec());
    let stored = row.data.as_ref().map(|d| d.len()).unwrap_or(0);
    let e = entry_from_row(row, true).unwrap();
    (stored, plan_extraction(&e))
}

#[test]
fn small_tree_round_trips() {
    let (stored, action) = archive_and_extract("a.txt", 0o100644, b"hello");
    assert_eq!(stored, 5);
    match action {
        Action::WriteFile { name, contents, mode, mtime } => {
            assert_eq!(name, "a.txt");
            assert_eq!(contents, b"hello".to_vec());
            assert_eq!(mode, 0o644);
            assert_eq!(mtime, 1_700_000_000);
        }
        other => panic!("unexpected action {:?}", other),
    }

    let (stored, action) = archive_and_extract("sub", 0o040755, b"");
    assert_eq!(stored, 0);
    match action {
        Action::MakeDir { name, mode, mtime } => {
            assert_eq!(name, "sub");
            assert_eq!(mode, 0o755);
            assert_eq!(mtime, 1_700_000_000);
        }
        other => panic!("unexpected action {:?}", other),
    }

    let zeros = vec![0u8; 1024];
    let (stored, action) = archive_and_extract("sub/b.bin", 0o100644, &zeros);
    assert!(stored < 100);
    match action {
        Action::WriteFile { name, contents, mode, .. } => {
            assert_eq!(name, "sub/b.bin");
            assert_eq!(contents, zeros);
            assert_eq!(mode, 0o644);
        }
        other => panic!("unexpected action {:?}", other),
    }
}

#[test]
fn mixed_payloads_round_trip() {
    for content in [noise(3000), b"xyz".repeat(500), vec![], vec![42u8]] {
        let (_, action) = archive_and_extract("f", 0o100600, &content);
        match action {
            Action::WriteFile { contents, mode, .. } => {
                assert_eq!(contents, content);
                assert_eq!(mode, 0o600);
            }
            other => panic!("unexpected action {:?}", other),
        }
    }
}

#[test]
fn metadata_columns_make_an_entry() {
    let e = entry_from_metadata("sub/b.bin".to_string(), 0o100640, 12, 1024, 17).unwrap();
    assert_eq!(e.name, "sub/b.bin");
    assert_eq!(e.mode, 0o640);
    assert_eq!(e.filetype, FileType::File);
    assert_eq!(e.mtime, 12);
    assert_eq!(e.size, 1024);
    assert_eq!(e.compressed_size, 17);
    assert_eq!(e.data, None);
    let d = entry_from_metadata("sub".to_string(), 0o040700, 12, 0, 0).unwrap();
    assert_eq!(d.filetype, FileType::Dir);
    assert_eq!(d.mode, 0o700);
}

#[test]
fn metadata_with_negative_size_is_refused() {
    let r = entry_from_metadata("x".to_string(), 0o100640, 12, -5, 0);
    assert_eq!(r.err(), Some(RowError::NegativeSize));
}
