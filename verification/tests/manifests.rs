use sept11_datasets::manifest::{Manifest, ManifestError, ManifestFile, SummaryError};
use sept11_datasets::nesting::{find_byte, is_shallow, skip_string, MAX_NESTING};
use sept11_datasets::outcome::{FileFinding, FindingKind};
use sept11_datasets::path::{clone_path, paths_equal};
use sept11_datasets::torrent::{RawFile, RawTorrent};

fn path(parts: &[&str]) -> Vec<String> {
    parts.iter().map(|p| p.to_string()).collect()
}

fn file(parts: &[&str], length: u64) -> ManifestFile {
    ManifestFile { relative_path: path(parts), length }
}

fn hashes(count: usize) -> Vec<Vec<u8>> {
    (0..count).map(|i| vec![i as u8; 20]).collect()
}

/// A descriptor of the files `r/a` (4 bytes) and `r/sub/b` (6 bytes) in
/// pieces of 5 bytes.
fn descriptor() -> Vec<u8> {
    let mut bytes = Vec::new();
    bytes.extend_from_slice(b"d4:infod5:filesl");
    bytes.extend_from_slice(b"d6:lengthi4e4:pathl1:aee");
    bytes.extend_from_slice(b"d6:lengthi6e4:pathl3:sub1:bee");
    bytes.extend_from_slice(b"e4:name1:r12:piece lengthi5e6:pieces40:");
    bytes.extend_from_slice(&[0xffu8; 20]);
    bytes.extend_from_slice(&[0xfeu8; 20]);
    bytes.extend_from_slice(b"ee");
    bytes
}

#[test]
fn new_accepts_a_balanced_manifest() {
    let manifest = Manifest::new(5, hashes(2), vec![file(&["a"], 4), file(&["b"], 6)]).unwrap();
    assert_eq!(manifest.piece_length, 5);
    assert_eq!(manifest.piece_hashes, hashes(2));
    assert_eq!(manifest.files.len(), 2);
    assert!(Manifest::new(5, hashes(2), vec![file(&["a"], 5)]).is_ok());
    assert!(Manifest::new(5, hashes(2), vec![file(&["a"], 6)]).is_ok());
    assert!(Manifest::new(5, hashes(0), vec![]).is_ok());
    assert!(Manifest::new(5, hashes(1), vec![]).is_ok());
}

#[test]
fn new_refuses_a_zero_piece_length() {
    assert_eq!(
        Manifest::new(0, hashes(1), vec![file(&["a"], 4)]).unwrap_err(),
        ManifestError::ZeroPieceLength
    );
}

#[test]
fn new_refuses_files_that_do_not_fit_the_pieces() {
    assert_eq!(
        Manifest::new(5, hashes(2), vec![file(&["a"], 11)]).unwrap_err(),
        ManifestError::PieceCountMismatch
    );
    assert_eq!(
        Manifest::new(5, hashes(3), vec![file(&["a"], 9)]).unwrap_err(),
        ManifestError::PieceCountMismatch
    );
    assert_eq!(
        Manifest::new(5, hashes(0), vec![file(&["a"], 1)]).unwrap_err(),
        ManifestError::PieceCountMismatch
    );
    assert_eq!(
        Manifest::new(
            u64::MAX,
            hashes(1),
            vec![file(&["a"], u64::MAX), file(&["b"], u64::MAX)]
        )
        .unwrap_err(),
        ManifestError::PieceCountMismatch
    );
}

#[test]
fn prefix_within_sums_the_lengths() {
    let manifest = Manifest::new(5, hashes(2), vec![file(&["a"], 4), file(&["b"], 6)]).unwrap();
    assert_eq!(manifest.prefix_within(0, 100), Some(0));
    assert_eq!(manifest.prefix_within(1, 100), Some(4));
    assert_eq!(manifest.prefix_within(2, 100), Some(10));
    assert_eq!(manifest.prefix_within(2, 10), Some(10));
    assert_eq!(manifest.prefix_within(2, 9), None);
    assert_eq!(manifest.prefix_within(1, 3), None);
    assert_eq!(manifest.prefix_within(3, 100), Some(0));
}

#[test]
fn tree_size_and_directory() {
    let manifest =
        Manifest::new(5, hashes(2), vec![file(&["top", "a"], 4), file(&["top", "x", "b"], 6)])
            .unwrap();
    assert_eq!(
        manifest.tree(),
        vec![(path(&["top", "a"]), 4), (path(&["top", "x", "b"]), 6)]
    );
    assert_eq!(manifest.total_size(), Some(10));
    assert_eq!(manifest.top_directory(), Some("top".to_string()));
    let empty = Manifest::new(5, hashes(0), vec![]).unwrap();
    assert_eq!(empty.top_directory(), None);
    assert_eq!(empty.total_size(), Some(0));
    let nameless = Manifest::new(5, hashes(1), vec![file(&[], 3)]).unwrap();
    assert_eq!(nameless.top_directory(), None);
    let huge = Manifest {
        piece_length: 1,
        piece_hashes: vec![],
        files: vec![file(&["a"], u64::MAX), file(&["b"], 1)],
    };
    assert_eq!(huge.total_size(), None);
}

#[test]
fn find_file_gives_the_first_with_the_path() {
    let manifest = Manifest::new(
        5,
        hashes(2),
        vec![file(&["d", "a"], 4), file(&["d", "b"], 6), file(&["d", "a"], 0)],
    )
    .unwrap();
    assert_eq!(manifest.find_file(&path(&["d", "a"])), Some(0));
    assert_eq!(manifest.find_file(&path(&["d", "b"])), Some(1));
    assert_eq!(manifest.find_file(&path(&["d"])), None);
    assert_eq!(manifest.find_file(&path(&["a"])), None);
}

#[test]
fn collect_flagged_keeps_the_order_of_the_manifest() {
    let manifest = Manifest::new(
        5,
        hashes(2),
        vec![file(&["a"], 4), file(&["b"], 5), file(&["c"], 1)],
    )
    .unwrap();
    let found = manifest.collect_flagged(&vec![true, false, true], FindingKind::SizeMismatch);
    let seen: Vec<(Vec<String>, u64, FindingKind)> =
        found.iter().map(|f| (f.relative_path.clone(), f.length, f.kind)).collect();
    assert_eq!(
        seen,
        vec![
            (path(&["a"]), 4, FindingKind::SizeMismatch),
            (path(&["c"]), 1, FindingKind::SizeMismatch)
        ]
    );
    let about = FileFinding::about(&file(&["q", "r"], 7), FindingKind::Missing);
    assert_eq!(about.relative_path, path(&["q", "r"]));
    assert_eq!(about.length, 7);
    assert_eq!(about.kind, FindingKind::Missing);
}

#[test]
fn paths_compare_by_components() {
    assert!(paths_equal(&path(&["a", "b"]), &path(&["a", "b"])));
    assert!(!paths_equal(&path(&["a", "b"]), &path(&["a"])));
    assert!(!paths_equal(&path(&["a", "b"]), &path(&["a", "c"])));
    assert!(!paths_equal(&path(&["a/b"]), &path(&["a", "b"])));
    assert_eq!(clone_path(&path(&["x", "y"])), path(&["x", "y"]));
}

#[test]
fn decode_reads_a_descriptor() {
    let manifest = Manifest::decode(&descriptor()).unwrap();
    assert_eq!(manifest.piece_length, 5);
    assert_eq!(manifest.piece_hashes, vec![vec![0xffu8; 20], vec![0xfeu8; 20]]);
    assert_eq!(manifest.tree(), vec![(path(&["a"]), 4), (path(&["sub", "b"]), 6)]);
}

#[test]
fn decode_refuses_what_is_no_descriptor() {
    assert_eq!(Manifest::decode(b"not a torrent").unwrap_err(), ManifestError::Malformed);
    assert_eq!(Manifest::decode(&[]).unwrap_err(), ManifestError::Malformed);
    // The descriptor itself, handed back as its own decoding, would not do.
    assert_eq!(Manifest::decode(&descriptor()[1..]).unwrap_err(), ManifestError::Malformed);
}

#[test]
fn decode_refuses_a_single_file_descriptor() {
    let mut bytes = Vec::new();
    bytes.extend_from_slice(b"d4:infod6:lengthi4e4:name1:a12:piece lengthi5e6:pieces20:");
    bytes.extend_from_slice(&[0xffu8; 20]);
    bytes.extend_from_slice(b"ee");
    assert_eq!(Manifest::decode(&bytes).unwrap_err(), ManifestError::NoFileList);
}

#[test]
fn decode_refuses_too_many_pieces() {
    let mut bytes = Vec::new();
    bytes.extend_from_slice(b"d4:infod5:filesld6:lengthi4e4:pathl1:aeee");
    bytes.extend_from_slice(b"4:name1:r12:piece lengthi5e6:pieces40:");
    bytes.extend_from_slice(&[0xffu8; 40]);
    bytes.extend_from_slice(b"ee");
    assert_eq!(Manifest::decode(&bytes).unwrap_err(), ManifestError::PieceCountMismatch);
}

#[test]
fn from_raw_checks_the_descriptor() {
    let raw = |piece_length: i64, files: Option<Vec<(Vec<String>, i64)>>| RawTorrent {
        piece_length,
        pieces: hashes(2),
        files: files
            .map(|list| list.into_iter().map(|(path, length)| RawFile { path, length }).collect()),
    };
    let good = Manifest::from_raw(raw(5, Some(vec![(path(&["a"]), 4), (path(&["b"]), 6)]))).unwrap();
    assert_eq!(good.tree(), vec![(path(&["a"]), 4), (path(&["b"]), 6)]);
    assert_eq!(good.piece_length, 5);
    assert_eq!(Manifest::from_raw(raw(5, None)).unwrap_err(), ManifestError::NoFileList);
    assert_eq!(
        Manifest::from_raw(raw(-5, Some(vec![(path(&["a"]), 4)]))).unwrap_err(),
        ManifestError::NegativeLength
    );
    assert_eq!(
        Manifest::from_raw(raw(5, Some(vec![(path(&["a"]), 4), (path(&["b"]), -1)]))).unwrap_err(),
        ManifestError::NegativeLength
    );
    assert_eq!(
        Manifest::from_raw(raw(0, Some(vec![(path(&["a"]), 4)]))).unwrap_err(),
        ManifestError::ZeroPieceLength
    );
    assert_eq!(
        Manifest::from_raw(raw(5, Some(vec![(path(&["a"]), 40)]))).unwrap_err(),
        ManifestError::PieceCountMismatch
    );
}

#[test]
fn summary_of_a_release() {
    let manifest =
        Manifest::new(5, hashes(2), vec![file(&["top", "a"], 4), file(&["top", "x", "b"], 6)])
            .unwrap();
    let summary = manifest.summary().unwrap();
    assert_eq!(summary.directory, "top");
    assert_eq!(summary.file_count, 2);
    assert_eq!(summary.size, 10);
    let empty = Manifest::new(5, hashes(0), vec![]).unwrap();
    assert_eq!(empty.summary().unwrap_err(), SummaryError::NoDirectory);
    let nameless = Manifest::new(5, hashes(1), vec![file(&[], 3)]).unwrap();
    assert_eq!(nameless.summary().unwrap_err(), SummaryError::NoDirectory);
    let huge = Manifest {
        piece_length: 1,
        piece_hashes: vec![],
        files: vec![file(&["a"], u64::MAX), file(&["b"], 1)],
    };
    assert_eq!(huge.summary().unwrap_err(), SummaryError::SizeTooLarge);
}

fn repeated(byte: u8, count: usize) -> Vec<u8> {
    vec![byte; count]
}

/// The descriptor of `descriptor()` with one more key, whose value is a list
/// in a list and so on, `levels` deep.
fn nested_descriptor(levels: usize) -> Vec<u8> {
    let mut bytes = descriptor();
    bytes.pop();
    bytes.extend_from_slice(b"2:zz");
    bytes.extend_from_slice(&repeated(b'l', levels));
    bytes.extend_from_slice(&repeated(b'e', levels));
    bytes.push(b'e');
    bytes
}

#[test]
fn nesting_limit_is_sixty_four() {
    assert_eq!(MAX_NESTING, 64);
    assert!(is_shallow(&[]));
    assert!(is_shallow(&repeated(b'l', 64)));
    assert!(!is_shallow(&repeated(b'l', 65)));
    assert!(is_shallow(&repeated(b'd', 64)));
    assert!(!is_shallow(&repeated(b'd', 65)));
    let mut mixed = Vec::new();
    for _ in 0..33 {
        mixed.extend_from_slice(b"l");
        mixed.extend_from_slice(b"d1:k");
    }
    assert!(!is_shallow(&mixed));
    mixed.truncate(mixed.len() - 4);
    assert!(!is_shallow(&mixed));
    mixed.pop();
    assert!(is_shallow(&mixed));
}

#[test]
fn nesting_counts_what_is_open() {
    let mut bytes = Vec::new();
    for _ in 0..5 {
        bytes.extend_from_slice(&repeated(b'l', 64));
        bytes.extend_from_slice(&repeated(b'e', 64));
    }
    assert!(is_shallow(&bytes));
    bytes.extend_from_slice(&repeated(b'l', 65));
    assert!(!is_shallow(&bytes));
}

#[test]
fn nesting_passes_over_strings_and_integers() {
    let hidden = repeated(b'l', 100);
    let mut string = b"100:".to_vec();
    string.extend_from_slice(&hidden);
    string.extend_from_slice(b"le");
    assert!(is_shallow(&string));
    let mut signed = b"+100:".to_vec();
    signed.extend_from_slice(&hidden);
    assert!(is_shallow(&signed));
    let mut padded = b"0100:".to_vec();
    padded.extend_from_slice(&hidden);
    assert!(is_shallow(&padded));
    let mut integer = b"i".to_vec();
    integer.extend_from_slice(&hidden);
    integer.extend_from_slice(b"e");
    assert!(is_shallow(&integer));
    // A string that announces fewer bytes than follow leaves the rest to be scanned.
    let mut short = b"30:".to_vec();
    short.extend_from_slice(&hidden);
    assert!(!is_shallow(&short));
    let mut shorter = b"36:".to_vec();
    shorter.extend_from_slice(&hidden);
    assert!(is_shallow(&shorter));
    // Where no element can begin the scan ends, as decoding does.
    let mut stray = b"e".to_vec();
    stray.extend_from_slice(&hidden);
    assert!(is_shallow(&stray));
    let mut negative = b"-1:".to_vec();
    negative.extend_from_slice(&hidden);
    assert!(is_shallow(&negative));
    let mut endless = b"i12".to_vec();
    endless.extend_from_slice(&hidden);
    assert!(is_shallow(&endless));
}

#[test]
fn find_byte_counts_the_bytes_before_the_target() {
    assert_eq!(find_byte(b"abc:def:", b':', 0), Some(3));
    assert_eq!(find_byte(b"abc:def:", b':', 3), Some(0));
    assert_eq!(find_byte(b"abc:def:", b':', 4), Some(3));
    assert_eq!(find_byte(b"abc:def:", b':', 8), None);
    assert_eq!(find_byte(b"abc:def:", b':', 100), None);
    assert_eq!(find_byte(b"abc", b':', 0), None);
    assert_eq!(find_byte(b"", b':', 0), None);
}

#[test]
fn skip_string_gives_the_place_behind_the_string() {
    assert_eq!(skip_string(b"3:abcX", 0, 1), Some(5));
    assert_eq!(skip_string(b"3:abc", 0, 1), None);
    assert_eq!(skip_string(b"xx3:abcX", 2, 1), Some(7));
    assert_eq!(skip_string(b"+3:abcX", 0, 2), Some(6));
    assert_eq!(skip_string(b"003:abcX", 0, 3), Some(7));
    assert_eq!(skip_string(b"0:X", 0, 1), Some(2));
    assert_eq!(skip_string(b":X", 0, 0), None);
    assert_eq!(skip_string(b"+:X", 0, 1), None);
    assert_eq!(skip_string(b"-3:abcX", 0, 2), None);
    assert_eq!(skip_string(b"3a:abcX", 0, 2), None);
    assert_eq!(skip_string(b"99999999999999999999999999999999999999999999:abcX", 0, 44), None);
    assert_eq!(skip_string(b"4:abcX", 0, 1), None);
    assert_eq!(skip_string(b"3:abcX", 0, 6), None);
    assert_eq!(skip_string(b"3:abcX", 9, 1), None);
    assert_eq!(skip_string(b"3:abcX", usize::MAX, usize::MAX), None);
}

#[test]
fn decode_reads_a_descriptor_nested_to_the_limit() {
    let manifest = Manifest::decode(&nested_descriptor(MAX_NESTING - 1)).unwrap();
    assert_eq!(manifest.piece_length, 5);
    assert_eq!(manifest.tree(), vec![(path(&["a"]), 4), (path(&["sub", "b"]), 6)]);
    assert!(is_shallow(&nested_descriptor(MAX_NESTING - 1)));
    assert!(is_shallow(&descriptor()));
}

#[test]
fn decode_refuses_a_descriptor_nested_beyond_the_limit() {
    assert!(!is_shallow(&nested_descriptor(MAX_NESTING)));
    assert_eq!(
        Manifest::decode(&nested_descriptor(MAX_NESTING)).unwrap_err(),
        ManifestError::NestedTooDeep
    );
    assert_eq!(
        Manifest::decode(&repeated(b'l', 400_000)).unwrap_err(),
        ManifestError::NestedTooDeep
    );
    assert_eq!(
        Manifest::decode(&repeated(b'd', 400_000)).unwrap_err(),
        ManifestError::NestedTooDeep
    );
    // Within the limit such bytes are read and found malformed.
    assert_eq!(
        Manifest::decode(&repeated(b'l', MAX_NESTING)).unwrap_err(),
        ManifestError::Malformed
    );
}
