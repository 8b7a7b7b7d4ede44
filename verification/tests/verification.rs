use sept11_datasets::check::{check, classify, default_disposable};
use sept11_datasets::cursor::PieceCursor;
use sept11_datasets::digest::{bytes_equal, digest_matches};
use sept11_datasets::manifest::{Manifest, ManifestFile};
use sept11_datasets::outcome::{FileFinding, FindingKind, VerificationOutcome};
use sept11_datasets::run::{begin, PieceGap, ScanMode, Step, VerificationError};
use sept11_datasets::verify::{read_snapshot, verify, verify_exhaustive, verify_with};
use sha1::{Digest, Sha1};

fn path(parts: &[&str]) -> Vec<String> {
    parts.iter().map(|p| p.to_string()).collect()
}

fn file(parts: &[&str], length: u64) -> ManifestFile {
    ManifestFile { relative_path: path(parts), length }
}

fn digest(data: &[u8]) -> Vec<u8> {
    Sha1::digest(data).to_vec()
}

const A: [u8; 4] = [1, 2, 3, 4];
const B: [u8; 6] = [5, 6, 7, 8, 9, 10];

/// Files `a` (4 bytes) and `b` (6 bytes) in pieces of 5 bytes.
fn two_files() -> Manifest {
    let stream: Vec<u8> = A.iter().chain(B.iter()).copied().collect();
    Manifest::new(
        5,
        vec![digest(&stream[0..5]), digest(&stream[5..10])],
        vec![file(&["a"], 4), file(&["b"], 6)],
    )
    .unwrap()
}

fn names(findings: &[FileFinding]) -> Vec<(Vec<String>, u64, FindingKind)> {
    findings.iter().map(|f| (f.relative_path.clone(), f.length, f.kind)).collect()
}

#[test]
fn sha1_of_abc_matches_the_known_digest() {
    let expected: [u8; 20] = [
        0xa9, 0x99, 0x3e, 0x36, 0x47, 0x06, 0x81, 0x6a, 0xba, 0x3e, 0x25, 0x71, 0x78, 0x50, 0xc2,
        0x6c, 0x9c, 0xd0, 0xd8, 0x9d,
    ];
    assert!(digest_matches(b"abc", &expected));
    assert!(!digest_matches(b"abd", &expected));
    assert!(!digest_matches(b"abc", b"abc"));
}

#[test]
fn bytes_equal_compares_length_and_content() {
    assert!(bytes_equal(&[1, 2, 3], &[1, 2, 3]));
    assert!(!bytes_equal(&[1, 2, 3], &[1, 2]));
    assert!(!bytes_equal(&[1, 2, 3], &[1, 2, 4]));
    assert!(bytes_equal(&[], &[]));
}

#[test]
fn verify_all_files_absent_is_missing() {
    let outcome = verify(&two_files(), &vec![None, None]).unwrap();
    assert!(matches!(outcome, VerificationOutcome::AllFilesMissing));
}

#[test]
fn check_all_files_absent_is_missing() {
    let outcome = check(&two_files(), &vec![None, None], &default_disposable()).unwrap();
    assert!(matches!(outcome, VerificationOutcome::AllFilesMissing));
}

#[test]
fn verify_faithful_copy_is_verified() {
    let dir = vec![Some(A.to_vec()), Some(B.to_vec())];
    let outcome = verify(&two_files(), &dir).unwrap();
    assert!(matches!(outcome, VerificationOutcome::Verified));
}

#[test]
fn check_faithful_copy_is_complete() {
    let outcome = check(&two_files(), &vec![Some(4), Some(6)], &default_disposable()).unwrap();
    assert!(matches!(outcome, VerificationOutcome::Complete));
}

#[test]
fn verify_twice_gives_the_same_outcome() {
    let mut damaged = B.to_vec();
    damaged[4] ^= 0xff;
    let dir = vec![Some(A.to_vec()), Some(damaged)];
    let first = verify(&two_files(), &dir).unwrap();
    let second = verify(&two_files(), &dir).unwrap();
    match (first, second) {
        (
            VerificationOutcome::Incomplete(m1, c1),
            VerificationOutcome::Incomplete(m2, c2),
        ) => {
            assert_eq!(names(&m1), names(&m2));
            assert_eq!(names(&c1), names(&c2));
        }
        _ => panic!("both runs should find the release incomplete"),
    }
}

#[test]
fn verify_with_one_file_absent_skips_hashing() {
    let dir = vec![Some(A.to_vec()), None];
    match verify(&two_files(), &dir).unwrap() {
        VerificationOutcome::Incomplete(missing, corrupted) => {
            assert_eq!(names(&missing), vec![(path(&["b"]), 6, FindingKind::Missing)]);
            assert!(corrupted.is_empty());
        }
        _ => panic!("the release should be incomplete"),
    }
}

#[test]
fn verify_damage_in_second_piece_blames_b() {
    let mut damaged = B.to_vec();
    damaged[3] ^= 0x01;
    let dir = vec![Some(A.to_vec()), Some(damaged)];
    match verify(&two_files(), &dir).unwrap() {
        VerificationOutcome::Incomplete(missing, corrupted) => {
            assert!(missing.is_empty());
            assert_eq!(names(&corrupted), vec![(path(&["b"]), 6, FindingKind::ContentMismatch)]);
        }
        _ => panic!("the release should be incomplete"),
    }
}

#[test]
fn verify_damage_in_spanning_piece_blames_the_file_at_its_start() {
    // The first byte of `b` lies in the first piece, which begins in `a`.
    let mut damaged = B.to_vec();
    damaged[0] ^= 0x01;
    let dir = vec![Some(A.to_vec()), Some(damaged)];
    match verify(&two_files(), &dir).unwrap() {
        VerificationOutcome::Incomplete(missing, corrupted) => {
            assert!(missing.is_empty());
            assert_eq!(names(&corrupted), vec![(path(&["a"]), 4, FindingKind::ContentMismatch)]);
        }
        _ => panic!("the release should be incomplete"),
    }
}

#[test]
fn verify_truncated_file_counts_as_zero_filled() {
    let dir = vec![Some(A.to_vec()), Some(B[0..3].to_vec())];
    match verify(&two_files(), &dir).unwrap() {
        VerificationOutcome::Incomplete(missing, corrupted) => {
            assert!(missing.is_empty());
            assert_eq!(names(&corrupted), vec![(path(&["b"]), 6, FindingKind::ContentMismatch)]);
        }
        _ => panic!("the release should be incomplete"),
    }
    // A manifest built over the zero-filled stream accepts the truncated file.
    let stream: Vec<u8> = vec![1, 2, 3, 4, 5, 6, 7, 0, 0, 0];
    let manifest = Manifest::new(
        5,
        vec![digest(&stream[0..5]), digest(&stream[5..10])],
        vec![file(&["a"], 4), file(&["b"], 6)],
    )
    .unwrap();
    assert!(matches!(verify(&manifest, &dir).unwrap(), VerificationOutcome::Verified));
}

#[test]
fn verify_ignores_bytes_behind_the_length_of_a_file() {
    let mut longer = B.to_vec();
    longer.extend_from_slice(&[42, 43]);
    let dir = vec![Some(A.to_vec()), Some(longer)];
    assert!(matches!(verify(&two_files(), &dir).unwrap(), VerificationOutcome::Verified));
}

#[test]
fn verify_skips_empty_files_when_it_lays_blame() {
    let manifest = Manifest::new(
        4,
        vec![digest(&[9, 9, 9])],
        vec![file(&["empty"], 0), file(&["full"], 3)],
    )
    .unwrap();
    let good = vec![Some(vec![]), Some(vec![9, 9, 9])];
    assert!(matches!(verify(&manifest, &good).unwrap(), VerificationOutcome::Verified));
    let bad = vec![Some(vec![]), Some(vec![9, 8, 9])];
    match verify(&manifest, &bad).unwrap() {
        VerificationOutcome::Incomplete(_, corrupted) => {
            assert_eq!(names(&corrupted), vec![(path(&["full"]), 3, FindingKind::ContentMismatch)]);
        }
        _ => panic!("the release should be incomplete"),
    }
}

#[test]
fn verify_short_last_piece() {
    let stream: Vec<u8> = (0u8..7).collect();
    let manifest = Manifest::new(
        5,
        vec![digest(&stream[0..5]), digest(&stream[5..7])],
        vec![file(&["x"], 7)],
    )
    .unwrap();
    assert!(matches!(
        verify(&manifest, &vec![Some(stream.clone())]).unwrap(),
        VerificationOutcome::Verified
    ));
}

#[test]
fn verify_empty_piece_behind_the_stream_blames_the_last_file() {
    let stream: Vec<u8> = (0u8..5).collect();
    let manifest = Manifest::new(
        5,
        vec![digest(&stream), digest(&[1])],
        vec![file(&["x"], 5)],
    )
    .unwrap();
    match verify(&manifest, &vec![Some(stream.clone())]).unwrap() {
        VerificationOutcome::Incomplete(_, corrupted) => {
            assert_eq!(names(&corrupted), vec![(path(&["x"]), 5, FindingKind::ContentMismatch)]);
        }
        _ => panic!("the release should be incomplete"),
    }
    let exact = Manifest::new(5, vec![digest(&stream), digest(&[])], vec![file(&["x"], 5)]).unwrap();
    assert!(matches!(
        verify(&exact, &vec![Some(stream)]).unwrap(),
        VerificationOutcome::Verified
    ));
}

#[test]
fn verify_wrong_file_count_is_an_error() {
    assert_eq!(
        verify(&two_files(), &vec![Some(A.to_vec())]).unwrap_err(),
        VerificationError::WrongFileCount
    );
    assert_eq!(
        check(&two_files(), &vec![Some(4)], &default_disposable()).unwrap_err(),
        VerificationError::WrongFileCount
    );
    assert!(begin(&two_files(), &vec![false], ScanMode::FailFast).is_err());
}

#[test]
fn verify_manifest_without_files_is_missing() {
    let manifest = Manifest::new(5, vec![], vec![]).unwrap();
    assert!(matches!(verify(&manifest, &vec![]).unwrap(), VerificationOutcome::AllFilesMissing));
}

#[test]
fn run_asks_for_each_stretch_in_turn() {
    let manifest = two_files();
    let run = match begin(&manifest, &vec![false, false], ScanMode::FailFast).unwrap() {
        Step::Continue(run) => run,
        _ => panic!("the run should begin with the first piece"),
    };
    assert_eq!(run.piece_index, 0);
    let run = match run.step(&manifest) {
        Step::Read { run, file_index, offset, length } => {
            assert_eq!((file_index, offset, length), (0, 0, 4));
            run.supply(&manifest, &A)
        }
        _ => panic!("the run should read from a"),
    };
    assert_eq!(run.buffer, A.to_vec());
    assert!(run.gaps.is_empty());
    assert_eq!(run.cursor, PieceCursor { file_index: 1, offset: 0 });
    let run = match run.step(&manifest) {
        Step::Read { run, file_index, offset, length } => {
            assert_eq!((file_index, offset, length), (1, 0, 1));
            run.supply(&manifest, &B[0..1])
        }
        _ => panic!("the run should read the first byte of b"),
    };
    assert_eq!(run.cursor, PieceCursor { file_index: 1, offset: 1 });
    // The piece is gathered: what is supplied now is left aside.
    let run = run.supply(&manifest, &[42, 43]);
    assert_eq!(run.buffer, vec![1, 2, 3, 4, 5]);
    assert_eq!(run.cursor, PieceCursor { file_index: 1, offset: 1 });
    assert!(run.gaps.is_empty());
    let run = match run.step(&manifest) {
        Step::Continue(run) => run,
        _ => panic!("the first piece should match"),
    };
    assert_eq!(run.piece_index, 1);
    assert_eq!(run.start_file, 1);
    assert!(run.buffer.is_empty());
    let run = match run.step(&manifest) {
        Step::Read { run, file_index, offset, length } => {
            assert_eq!((file_index, offset, length), (1, 1, 5));
            // More than was asked for is left aside.
            run.supply(&manifest, &[6, 7, 8, 9, 10, 11, 12])
        }
        _ => panic!("the run should read the rest of b"),
    };
    assert_eq!(run.buffer, vec![6, 7, 8, 9, 10]);
    assert_eq!(run.cursor, PieceCursor { file_index: 2, offset: 0 });
    assert!(matches!(run.step(&manifest), Step::Finished(VerificationOutcome::Verified)));
}

#[test]
fn run_zero_fills_what_was_not_read() {
    let manifest = two_files();
    let run = match begin(&manifest, &vec![false, false], ScanMode::FailFast).unwrap() {
        Step::Continue(run) => run,
        _ => panic!("the run should begin with the first piece"),
    };
    let run = match run.step(&manifest) {
        Step::Read { run, .. } => run.supply(&manifest, &A[0..2]),
        _ => panic!("the run should read from a"),
    };
    assert_eq!(run.buffer, vec![1, 2, 0, 0]);
    assert_eq!(run.cursor, PieceCursor { file_index: 1, offset: 0 });
    assert_eq!(run.gaps, vec![PieceGap { file_index: 0, offset: 2, length: 2 }]);
    let run = match run.step(&manifest) {
        Step::Read { run, .. } => run.supply(&manifest, &[]),
        _ => panic!("the run should read the first byte of b"),
    };
    assert_eq!(run.buffer, vec![1, 2, 0, 0, 0]);
    assert_eq!(
        run.gaps,
        vec![
            PieceGap { file_index: 0, offset: 2, length: 2 },
            PieceGap { file_index: 1, offset: 0, length: 1 }
        ]
    );
    match run.step(&manifest) {
        Step::Finished(VerificationOutcome::Incomplete(missing, corrupted)) => {
            assert!(missing.is_empty());
            assert_eq!(names(&corrupted), vec![(path(&["a"]), 4, FindingKind::ContentMismatch)]);
        }
        _ => panic!("the zero-filled piece should not match"),
    }
}

#[test]
fn begin_decides_on_absent_files() {
    let manifest = two_files();
    assert!(matches!(
        begin(&manifest, &vec![true, true], ScanMode::Exhaustive).unwrap(),
        Step::Finished(VerificationOutcome::AllFilesMissing)
    ));
    match begin(&manifest, &vec![true, false], ScanMode::FailFast).unwrap() {
        Step::Finished(VerificationOutcome::Incomplete(missing, corrupted)) => {
            assert_eq!(names(&missing), vec![(path(&["a"]), 4, FindingKind::Missing)]);
            assert!(corrupted.is_empty());
        }
        _ => panic!("the release should be incomplete"),
    }
    let no_pieces = Manifest::new(5, vec![], vec![file(&["z"], 0)]).unwrap();
    assert!(matches!(
        begin(&no_pieces, &vec![false], ScanMode::FailFast).unwrap(),
        Step::Finished(VerificationOutcome::Verified)
    ));
}

#[test]
fn cursor_moves_through_the_stream() {
    let manifest = Manifest::new(
        4,
        vec![digest(&[0; 4]), digest(&[0; 3])],
        vec![file(&["e"], 0), file(&["a"], 3), file(&["f"], 0), file(&["b"], 4)],
    )
    .unwrap();
    let cursor = PieceCursor::start(&manifest);
    assert_eq!(cursor, PieceCursor { file_index: 1, offset: 0 });
    assert_eq!(cursor.span(&manifest, 10), 3);
    assert_eq!(cursor.span(&manifest, 2), 2);
    let cursor = cursor.advance(&manifest, 2);
    assert_eq!(cursor, PieceCursor { file_index: 1, offset: 2 });
    let cursor = cursor.advance(&manifest, 1);
    assert_eq!(cursor, PieceCursor { file_index: 3, offset: 0 });
    let cursor = cursor.advance(&manifest, 4);
    assert_eq!(cursor, PieceCursor { file_index: 4, offset: 0 });
    assert_eq!(cursor.span(&manifest, 10), 0);
    assert_eq!(cursor.advance(&manifest, 3), PieceCursor { file_index: 4, offset: 0 });
    assert_eq!(PieceCursor::at_file(&manifest, 2), PieceCursor { file_index: 3, offset: 0 });
    assert_eq!(PieceCursor::at_file(&manifest, 4), PieceCursor { file_index: 4, offset: 0 });
    assert_eq!(PieceCursor::at_file(&manifest, 9), PieceCursor { file_index: 4, offset: 0 });
    // A cursor moves to the end of its file at most.
    let inside = PieceCursor { file_index: 3, offset: 1 };
    assert_eq!(inside.advance(&manifest, 2), PieceCursor { file_index: 3, offset: 3 });
    assert_eq!(inside.advance(&manifest, 3), PieceCursor { file_index: 4, offset: 0 });
    assert_eq!(inside.advance(&manifest, 100), PieceCursor { file_index: 4, offset: 0 });
    assert_eq!(inside.advance(&manifest, 0), inside);
}

#[test]
fn read_snapshot_gives_what_the_file_holds() {
    let content = Some(vec![1u8, 2, 3, 4, 5]);
    assert_eq!(read_snapshot(&content, 1, 3), vec![2, 3, 4]);
    assert_eq!(read_snapshot(&content, 3, 10), vec![4, 5]);
    assert_eq!(read_snapshot(&content, 5, 1), Vec::<u8>::new());
    assert_eq!(read_snapshot(&None, 0, 4), Vec::<u8>::new());
}

#[test]
fn check_only_a_disposable_file_missing_is_complete() {
    let manifest = Manifest::new(
        5,
        vec![digest(&[0; 5]), digest(&[0; 2])],
        vec![file(&["dir", "a"], 4), file(&["dir", "Thumbs.db"], 3)],
    )
    .unwrap();
    let outcome = check(&manifest, &vec![Some(4), None], &default_disposable()).unwrap();
    assert!(matches!(outcome, VerificationOutcome::Complete));
    // With another list of disposable names the file counts.
    match check(&manifest, &vec![Some(4), None], &vec![".DS_Store".to_string()]).unwrap() {
        VerificationOutcome::Incomplete(missing, mismatched) => {
            assert_eq!(
                names(&missing),
                vec![(path(&["dir", "Thumbs.db"]), 3, FindingKind::Missing)]
            );
            assert!(mismatched.is_empty());
        }
        _ => panic!("the release should be incomplete"),
    }
}

#[test]
fn check_disposable_size_mismatch_is_complete() {
    let manifest = Manifest::new(
        5,
        vec![digest(&[0; 5]), digest(&[0; 2])],
        vec![file(&["a"], 4), file(&["Thumbs.db"], 3)],
    )
    .unwrap();
    let outcome = check(&manifest, &vec![Some(4), Some(99)], &default_disposable()).unwrap();
    assert!(matches!(outcome, VerificationOutcome::Complete));
}

#[test]
fn check_reports_missing_and_mismatched_files() {
    let manifest = Manifest::new(
        5,
        vec![digest(&[0; 5]), digest(&[0; 5]), digest(&[0; 2])],
        vec![file(&["a"], 4), file(&["b"], 6), file(&["Thumbs.db"], 2)],
    )
    .unwrap();
    match check(&manifest, &vec![None, Some(5), None], &default_disposable()).unwrap() {
        VerificationOutcome::AllFilesMissing => panic!("b is present"),
        VerificationOutcome::Incomplete(missing, mismatched) => {
            assert_eq!(
                names(&missing),
                vec![
                    (path(&["a"]), 4, FindingKind::Missing),
                    (path(&["Thumbs.db"]), 2, FindingKind::Missing)
                ]
            );
            assert_eq!(names(&mismatched), vec![(path(&["b"]), 6, FindingKind::SizeMismatch)]);
        }
        _ => panic!("the release should be incomplete"),
    }
}

#[test]
fn classify_follows_the_rule() {
    let disposable = default_disposable();
    let finding = |parts: &[&str], kind| FileFinding { relative_path: path(parts), length: 1, kind };
    assert!(matches!(classify(3, vec![], vec![], &disposable), VerificationOutcome::Complete));
    assert!(matches!(classify(0, vec![], vec![], &disposable), VerificationOutcome::AllFilesMissing));
    assert!(matches!(
        classify(1, vec![finding(&["Thumbs.db"], FindingKind::Missing)], vec![], &disposable),
        VerificationOutcome::AllFilesMissing
    ));
    assert!(matches!(
        classify(2, vec![finding(&["x", "Thumbs.db"], FindingKind::Missing)], vec![], &disposable),
        VerificationOutcome::Complete
    ));
    assert!(matches!(
        classify(2, vec![], vec![finding(&["x"], FindingKind::SizeMismatch)], &disposable),
        VerificationOutcome::Incomplete(_, _)
    ));
    // A finding without a file name is never trivial.
    assert!(matches!(
        classify(2, vec![finding(&[], FindingKind::Missing)], vec![], &disposable),
        VerificationOutcome::Incomplete(_, _)
    ));
}

/// Files `a` (4 bytes), `b` (6 bytes) and `c` (5 bytes) in pieces of 5 bytes.
fn three_files() -> (Manifest, Vec<Option<Vec<u8>>>) {
    let c = [11u8, 12, 13, 14, 15];
    let stream: Vec<u8> = A.iter().chain(B.iter()).chain(c.iter()).copied().collect();
    let manifest = Manifest::new(
        5,
        vec![digest(&stream[0..5]), digest(&stream[5..10]), digest(&stream[10..15])],
        vec![file(&["a"], 4), file(&["b"], 6), file(&["c"], 5)],
    )
    .unwrap();
    (manifest, vec![Some(A.to_vec()), Some(B.to_vec()), Some(c.to_vec())])
}

#[test]
fn exhaustive_verification_reports_every_blamed_file() {
    let (manifest, mut dir) = three_files();
    assert!(matches!(
        verify_exhaustive(&manifest, &dir).unwrap(),
        VerificationOutcome::Verified
    ));
    // Damage in the first piece (laid to a) and in the last (laid to c).
    dir[0].as_mut().unwrap()[1] ^= 0x10;
    dir[2].as_mut().unwrap()[4] ^= 0x10;
    match verify_exhaustive(&manifest, &dir).unwrap() {
        VerificationOutcome::Incomplete(missing, corrupted) => {
            assert!(missing.is_empty());
            assert_eq!(
                names(&corrupted),
                vec![
                    (path(&["a"]), 4, FindingKind::ContentMismatch),
                    (path(&["c"]), 5, FindingKind::ContentMismatch)
                ]
            );
        }
        _ => panic!("the release should be incomplete"),
    }
    match verify(&manifest, &dir).unwrap() {
        VerificationOutcome::Incomplete(_, corrupted) => {
            assert_eq!(names(&corrupted), vec![(path(&["a"]), 4, FindingKind::ContentMismatch)]);
        }
        _ => panic!("the release should be incomplete"),
    }
    match verify_with(&manifest, &dir, ScanMode::Exhaustive).unwrap() {
        VerificationOutcome::Incomplete(_, corrupted) => assert_eq!(corrupted.len(), 2),
        _ => panic!("the release should be incomplete"),
    }
}

#[test]
fn exhaustive_verification_reports_a_file_once_for_pieces_in_a_row() {
    let stream: Vec<u8> = (0u8..12).collect();
    let manifest = Manifest::new(
        4,
        vec![digest(&stream[0..4]), digest(&stream[4..8]), digest(&stream[8..12])],
        vec![file(&["big"], 9), file(&["small"], 3)],
    )
    .unwrap();
    let mut big = stream[0..9].to_vec();
    big[0] ^= 1;
    big[5] ^= 1;
    let dir = vec![Some(big), Some(vec![9, 10, 0])];
    match verify_exhaustive(&manifest, &dir).unwrap() {
        VerificationOutcome::Incomplete(missing, corrupted) => {
            assert!(missing.is_empty());
            // All three pieces begin in `big`, also the last, whose damage lies in `small`.
            assert_eq!(names(&corrupted), vec![(path(&["big"]), 9, FindingKind::ContentMismatch)]);
        }
        _ => panic!("the release should be incomplete"),
    }
}

#[test]
fn exhaustive_verification_with_absent_files_skips_hashing() {
    let (manifest, mut dir) = three_files();
    dir[1] = None;
    match verify_exhaustive(&manifest, &dir).unwrap() {
        VerificationOutcome::Incomplete(missing, corrupted) => {
            assert_eq!(names(&missing), vec![(path(&["b"]), 6, FindingKind::Missing)]);
            assert!(corrupted.is_empty());
        }
        _ => panic!("the release should be incomplete"),
    }
    assert!(matches!(
        verify_exhaustive(&manifest, &vec![None, None, None]).unwrap(),
        VerificationOutcome::AllFilesMissing
    ));
    assert_eq!(
        verify_exhaustive(&manifest, &vec![]).unwrap_err(),
        VerificationError::WrongFileCount
    );
}
