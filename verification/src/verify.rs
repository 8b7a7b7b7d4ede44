//! Full verification of a release against a directory held in memory.

use crate::cursor::lemma_position_bounded;
use crate::manifest::Manifest;
use crate::manifest::ManifestSpec;
use crate::outcome::finding_about;
use crate::outcome::findings_view;
use crate::outcome::FindingKind;
use crate::outcome::FindingSpec;
use crate::outcome::OutcomeSpec;
use crate::outcome::VerificationOutcome;
use crate::run::begin;
use crate::run::lemma_piece_gathered;
use crate::run::mismatch_outcome;
use crate::run::presence_verdict;
use crate::run::verdict;
use crate::run::ScanMode;
use crate::run::Step;
use crate::run::VerificationError;
use crate::run::VerifyRun;
use crate::stream::lemma_read_window;
use crate::stream::lemma_stream_len;
use crate::stream::lemma_stream_slice;
use crate::stream::read_at;
use vstd::prelude::*;

verus! {

/// What a directory held in memory holds for each file of a manifest, in the
/// manifest's order: the content, or `None` where the file is absent.
pub open spec fn snapshot_view(dir: Seq<Option<Vec<u8>>>) -> Seq<Option<Seq<u8>>> {
    Seq::new(
        dir.len(),
        |i: int|
            match dir[i] {
                Some(content) => Some(content@),
                None => None,
            },
    )
}

/// Of each file, whether the directory lacks it.
pub open spec fn absent_flags(dir: Seq<Option<Seq<u8>>>) -> Seq<bool> {
    Seq::new(dir.len(), |i: int| dir[i] is None)
}

/// The outcome of a full verification. With every file absent the release is
/// missing; with some absent it is incomplete by those, and no piece is
/// hashed. With all present, the first piece that does not hash to its
/// digest makes the release incomplete by the file that holds the first byte
/// of that piece; with no such piece the release is verified.
pub open spec fn verify_outcome(m: ManifestSpec, dir: Seq<Option<Seq<u8>>>) -> OutcomeSpec {
    match presence_verdict(m, absent_flags(dir)) {
        Some(decided) => decided,
        None => match m.first_mismatch(dir, 0) {
            Some(k) => mismatch_outcome(m, k),
            None => OutcomeSpec::Verified,
        },
    }
}

impl ManifestSpec {
    /// The files that mismatches among the first `n` pieces are laid to, in
    /// the order of the pieces. A file is not named again while the
    /// mismatches stay with it.
    pub open spec fn blamed(self, dir: Seq<Option<Seq<u8>>>, n: nat) -> Seq<nat>
        decreases n,
    {
        if n == 0 || n > self.piece_hashes.len() {
            Seq::empty()
        } else {
            let before = self.blamed(dir, (n - 1) as nat);
            let accused = self.accused((n - 1) as nat);
            if self.piece_matches(dir, (n - 1) as nat) || (before.len() > 0 && before.last()
                == accused) {
                before
            } else {
                before.push(accused)
            }
        }
    }

    /// The findings about the files that mismatches among the first `n`
    /// pieces are laid to.
    pub open spec fn blamed_findings(self, dir: Seq<Option<Seq<u8>>>, n: nat) -> Seq<FindingSpec> {
        Seq::new(
            self.blamed(dir, n).len(),
            |i: int|
                finding_about(self.files[self.blamed(dir, n)[i] as int], FindingKind::ContentMismatch),
        )
    }
}

/// The outcome of a full verification that hashes every piece. It differs
/// from that of one that ends at the first mismatch only with all files
/// present: every file to which a mismatch is laid is then reported.
pub open spec fn exhaustive_outcome(m: ManifestSpec, dir: Seq<Option<Seq<u8>>>) -> OutcomeSpec {
    match presence_verdict(m, absent_flags(dir)) {
        Some(decided) => decided,
        None => verdict(m.blamed_findings(dir, m.piece_hashes.len())),
    }
}

/// Of each file, whether the directory lacks it.
pub fn absent_files(dir: &Vec<Option<Vec<u8>>>) -> (absent: Vec<bool>)
    ensures
        absent@ == absent_flags(snapshot_view(dir@)),
{
    let mut absent: Vec<bool> = Vec::new();
    let mut i: usize = 0;
    while i < dir.len()
        invariant
            i <= dir.len(),
            absent@.len() == i,
            forall|j: int| 0 <= j < i ==> absent@[j] == (dir@[j] is None),
        decreases dir.len() - i,
    {
        absent.push(dir[i].is_none());
        i += 1;
    }
    assert(absent@ =~= absent_flags(snapshot_view(dir@)));
    absent
}

/// Reads up to `length` bytes at `offset` from a file held in memory.
pub fn read_snapshot(state: &Option<Vec<u8>>, offset: u64, length: usize) -> (bytes: Vec<u8>)
    ensures
        bytes@ == read_at(
            match *state {
                Some(content) => Some(content@),
                None => None,
            },
            offset as nat,
            length as nat,
        ),
{
    let mut bytes: Vec<u8> = Vec::new();
    match state {
        None => {},
        Some(content) => {
            if offset < content.len() as u64 {
                let first: usize = offset as usize;
                let end: usize = if length <= content.len() - first {
                    first + length
                } else {
                    content.len()
                };
                let mut j: usize = first;
                while j < end
                    invariant
                        first <= j <= end <= content.len(),
                        bytes@ =~= content@.subrange(first as int, j as int),
                    decreases end - j,
                {
                    bytes.push(content[j]);
                    j += 1;
                }
            }
        },
    }
    bytes
}

/// The outcome of a verification in the given mode.
pub open spec fn outcome_in(mode: ScanMode, m: ManifestSpec, dir: Seq<Option<Seq<u8>>>) -> OutcomeSpec {
    match mode {
        ScanMode::FailFast => verify_outcome(m, dir),
        ScanMode::Exhaustive => exhaustive_outcome(m, dir),
    }
}

/// The last of the files that mismatches were laid to, if there is one.
pub open spec fn last_blamed(files: Seq<nat>) -> Option<usize> {
    if files.len() == 0 {
        None
    } else {
        Some(files.last() as usize)
    }
}

/// Verifies a directory held in memory against a manifest in the given
/// mode.
pub fn verify_with(manifest: &Manifest, dir: &Vec<Option<Vec<u8>>>, mode: ScanMode) -> (verified:
    Result<VerificationOutcome, VerificationError>)
    requires
        manifest.wf(),
    ensures
        dir.len() != manifest.files.len() ==> verified == Err::<VerificationOutcome, _>(
            VerificationError::WrongFileCount,
        ),
        dir.len() == manifest.files.len() ==> (verified matches Ok(outcome) && outcome@
            == outcome_in(mode, manifest@, snapshot_view(dir@))),
{
    let absent = absent_files(dir);
    let ghost m = manifest@;
    let ghost d = snapshot_view(dir@);
    let ghost full = m.full_stream(d);
    let mut run: VerifyRun = match begin(manifest, &absent, mode) {
        Err(error) => {
            return Err(error);
        },
        Ok(Step::Finished(outcome)) => {
            proof {
                if presence_verdict(m, absent_flags(d)) is None {
                    assert(m.blamed(d, 0) =~= Seq::empty());
                    assert(m.blamed_findings(d, 0) =~= Seq::empty());
                }
            }
            return Ok(outcome);
        },
        Ok(Step::Continue(run)) => run,
        Ok(Step::Read { run, file_index: _, offset: _, length: _ }) => run,
    };
    proof {
        lemma_stream_len(m, d, m.files.len());
        lemma_position_bounded(m, run.cursor);
        assert(m.blamed_findings(d, 0) =~= findings_view(run.damaged@));
    }
    loop
        invariant
            m == manifest@,
            d == snapshot_view(dir@),
            full == m.full_stream(d),
            full.len() == m.total(),
            dir.len() == manifest.files.len(),
            presence_verdict(m, absent_flags(d)) is None,
            run.wf(m),
            run.mode == mode,
            run.cursor.position(m) <= m.total(),
            run.buffer@ == full.subrange(
                m.piece_start(run.piece_index as nat) as int,
                run.cursor.position(m) as int,
            ),
            mode == ScanMode::FailFast ==> m.first_mismatch(d, 0) == m.first_mismatch(
                d,
                run.piece_index as nat,
            ),
            findings_view(run.damaged@) == m.blamed_findings(d, run.piece_index as nat),
            run.last_blamed == last_blamed(m.blamed(d, run.piece_index as nat)),
            forall|i: int|
                0 <= i < m.blamed(d, run.piece_index as nat).len() ==> m.blamed(
                    d,
                    run.piece_index as nat,
                )[i] < m.files.len(),
        decreases
                (m.piece_hashes.len() - run.piece_index) + (m.total() - run.cursor.position(m)),
    {
        let ghost prev = run;
        let ghost k = prev.piece_index as nat;
        let ghost position = prev.cursor.position(m);
        proof {
            lemma_position_bounded(m, prev.cursor);
            if prev.wanted(m) == 0 {
                lemma_piece_gathered(m, prev);
                assert(prev.buffer@ == m.piece(d, k));
                assert(prev.digest_ok(m) == m.piece_matches(d, k));
                assert(m.blamed_findings(d, k + 1) =~= prev.damaged_next(m));
                assert(last_blamed(m.blamed(d, k + 1)) == prev.blamed_next(m));
            }
        }
        match run.step(manifest) {
            Step::Read { run: reading, file_index, offset, length } => {
                let bytes = read_snapshot(&dir[file_index], offset, length);
                proof {
                    let file = m.files[file_index as int];
                    let span = prev.wanted(m);
                    lemma_read_window(file, d[file_index as int], offset as nat, span);
                    lemma_stream_slice(m, d, file_index as nat, offset as nat, span);
                    assert(full.subrange(m.piece_start(k) as int, position as int) + full.subrange(
                        position as int,
                        (position + span) as int,
                    ) =~= full.subrange(m.piece_start(k) as int, (position + span) as int));
                }
                run = reading.supply(manifest, bytes.as_slice());
                proof {
                    lemma_position_bounded(m, run.cursor);
                }
            },
            Step::Continue(next) => {
                run = next;
                assert(run.buffer@ =~= full.subrange(position as int, position as int));
            },
            Step::Finished(outcome) => {
                proof {
                    assert(prev.wanted(m) == 0);
                    if mode == ScanMode::FailFast {
                        if prev.digest_ok(m) {
                            assert(m.first_mismatch(d, k) == m.first_mismatch(d, k + 1));
                            assert(m.first_mismatch(d, k + 1) is None);
                        } else {
                            assert(m.first_mismatch(d, k) == Some(k));
                        }
                    }
                }
                return Ok(outcome);
            },
        }
    }
}

/// Verifies a directory held in memory against a manifest, hashing every
/// piece until one does not match.
pub fn verify(manifest: &Manifest, dir: &Vec<Option<Vec<u8>>>) -> (verified: Result<
    VerificationOutcome,
    VerificationError,
>)
    requires
        manifest.wf(),
    ensures
        dir.len() != manifest.files.len() ==> verified == Err::<VerificationOutcome, _>(
            VerificationError::WrongFileCount,
        ),
        dir.len() == manifest.files.len() ==> (verified matches Ok(outcome) && outcome@
            == verify_outcome(manifest@, snapshot_view(dir@))),
{
    verify_with(manifest, dir, ScanMode::FailFast)
}

/// Verifies a directory held in memory against a manifest, hashing every
/// piece whether or not one before it did not match.
pub fn verify_exhaustive(manifest: &Manifest, dir: &Vec<Option<Vec<u8>>>) -> (verified: Result<
    VerificationOutcome,
    VerificationError,
>)
    requires
        manifest.wf(),
    ensures
        dir.len() != manifest.files.len() ==> verified == Err::<VerificationOutcome, _>(
            VerificationError::WrongFileCount,
        ),
        dir.len() == manifest.files.len() ==> (verified matches Ok(outcome) && outcome@
            == exhaustive_outcome(manifest@, snapshot_view(dir@))),
{
    verify_with(manifest, dir, ScanMode::Exhaustive)
}

} // verus!
