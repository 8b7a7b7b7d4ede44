//! The full verification of a release as a machine of steps. Its caller
//! reads the files; the machine says what to read next, gathers each piece,
//! hashes it and decides the outcome. A run ends at the first piece that
//! does not hash to its digest, or hashes them all, as its mode says.

use crate::cursor::lemma_position_bounded;
use crate::cursor::PieceCursor;
use crate::digest::digest_matches;
use crate::digest::sha1_of;
use crate::manifest::Manifest;
use crate::manifest::ManifestSpec;
use crate::outcome::finding_about;
use crate::outcome::findings_view;
use crate::outcome::FileFinding;
use crate::outcome::FindingKind;
use crate::outcome::FindingSpec;
use crate::outcome::OutcomeSpec;
use crate::outcome::VerificationOutcome;
use crate::scan::flagged;
use crate::stream::lemma_accused_at_cursor;
use crate::stream::padded;
use vstd::prelude::*;

verus! {

/// Why a verification run could not be made.
#[derive(Debug, Clone, Copy, PartialEq, Eq, Structural)]
pub enum VerificationError {
    /// The observations do not hold one entry for each file of the manifest.
    WrongFileCount,
}

/// What is decided once it is known which files are absent: every file
/// absent, some absent, or none (`None`: the pieces are to be hashed).
pub open spec fn presence_verdict(m: ManifestSpec, absent: Seq<bool>) -> Option<OutcomeSpec> {
    let missing = flagged(m.files, absent, FindingKind::Missing, m.files.len());
    if missing.len() == m.files.len() {
        Some(OutcomeSpec::AllFilesMissing)
    } else if missing.len() > 0 {
        Some(OutcomeSpec::Incomplete(missing, Seq::empty()))
    } else {
        None
    }
}

/// The outcome when piece `k` is the first that does not hash to its digest:
/// the file that holds the first byte of the piece is reported, and no other.
pub open spec fn mismatch_outcome(m: ManifestSpec, k: nat) -> OutcomeSpec {
    OutcomeSpec::Incomplete(
        Seq::empty(),
        seq![finding_about(m.files[m.accused(k) as int], FindingKind::ContentMismatch)],
    )
}

/// Whether a run ends at the first piece that does not hash to its digest
/// or goes on to the last piece.
#[derive(Debug, Clone, Copy, PartialEq, Eq, Structural)]
pub enum ScanMode {
    /// The run ends at the first mismatch and reports one damaged file.
    FailFast,
    /// The run hashes every piece and reports each file that a mismatch is
    /// laid to.
    Exhaustive,
}

/// The outcome of a run that hashed its pieces and found the given files
/// damaged.
pub open spec fn verdict(damaged: Seq<FindingSpec>) -> OutcomeSpec {
    if damaged.len() == 0 {
        OutcomeSpec::Verified
    } else {
        OutcomeSpec::Incomplete(Seq::empty(), damaged)
    }
}

/// A stretch of a file that a run asked for and did not get, because the
/// file is gone or shorter than the manifest says. It counts as zeros.
#[derive(Debug, Clone, Copy, PartialEq, Eq, Structural)]
pub struct PieceGap {
    pub file_index: usize,
    pub offset: u64,
    pub length: u64,
}

/// A verification run between two steps: the piece that is being gathered,
/// the file that a mismatch of it will be laid to, the cursor behind the
/// bytes gathered so far, those bytes, and the gaps among them; and of the
/// pieces before it, the files found damaged and the last of them.
#[derive(Debug)]
pub struct VerifyRun {
    pub mode: ScanMode,
    pub damaged: Vec<FileFinding>,
    pub last_blamed: Option<usize>,
    pub piece_index: usize,
    pub start_file: usize,
    pub cursor: PieceCursor,
    pub buffer: Vec<u8>,
    pub gaps: Vec<PieceGap>,
}

/// What a run asks of its caller next.
#[derive(Debug)]
pub enum Step {
    /// Read up to `length` bytes of file `file_index` from `offset` on and
    /// hand them to [`VerifyRun::supply`]; hand over fewer, or none, where
    /// the file is shorter or gone.
    Read { run: VerifyRun, file_index: usize, offset: u64, length: usize },
    /// Nothing to read: take the next step. The run's `piece_index` pieces
    /// have been hashed so far.
    Continue(VerifyRun),
    /// The run is over.
    Finished(VerificationOutcome),
}

impl VerifyRun {
    /// The run is at a place that a run can reach.
    pub open spec fn wf(&self, m: ManifestSpec) -> bool {
        &&& m.wf()
        &&& self.piece_index < m.piece_hashes.len()
        &&& self.start_file < m.files.len()
        &&& self.start_file == m.accused(self.piece_index as nat)
        &&& self.cursor.wf(m)
        &&& self.buffer@.len() <= m.piece_length
        &&& self.cursor.position(m) == m.piece_start(self.piece_index as nat) + self.buffer@.len()
        &&& (self.last_blamed is None) == (self.damaged@.len() == 0)
        &&& self.mode == ScanMode::FailFast ==> self.damaged@.len() == 0
    }

    /// The files found damaged once the current piece is found not to hash
    /// to its digest: one more, unless the file that the mismatch is laid to
    /// was the last one found damaged.
    pub open spec fn damaged_after(&self, m: ManifestSpec) -> Seq<FindingSpec> {
        if self.last_blamed == Some(self.start_file) {
            findings_view(self.damaged@)
        } else {
            findings_view(self.damaged@).push(
                finding_about(m.files[self.start_file as int], FindingKind::ContentMismatch),
            )
        }
    }

    /// The files found damaged once the current piece is hashed.
    pub open spec fn damaged_next(&self, m: ManifestSpec) -> Seq<FindingSpec> {
        if self.digest_ok(m) {
            findings_view(self.damaged@)
        } else {
            self.damaged_after(m)
        }
    }

    /// The last file found damaged once the current piece is hashed.
    pub open spec fn blamed_next(&self, m: ManifestSpec) -> Option<usize> {
        if self.digest_ok(m) {
            self.last_blamed
        } else {
            Some(self.start_file)
        }
    }

    /// Whether the run ends once the current piece is hashed: behind the
    /// last piece, and at a mismatch where the run is to end at the first.
    pub open spec fn ends(&self, m: ManifestSpec) -> bool {
        self.piece_index + 1 == m.piece_hashes.len() || (!self.digest_ok(m) && self.mode
            == ScanMode::FailFast)
    }

    /// How many bytes the run wants to read next: what the piece still
    /// lacks, as far as the current file reaches.
    pub open spec fn wanted(&self, m: ManifestSpec) -> nat {
        let lacking = (m.piece_length - self.buffer@.len()) as nat;
        if lacking <= self.cursor.available(m) {
            lacking
        } else {
            self.cursor.available(m)
        }
    }

    /// What a read that gave `given` bytes adds to the gaps of the piece:
    /// the stretch that it fell short by, if it fell short.
    pub open spec fn gaps_after(&self, m: ManifestSpec, given: nat) -> Seq<PieceGap> {
        if given < self.wanted(m) {
            self.gaps@.push(
                PieceGap {
                    file_index: self.cursor.file_index,
                    offset: (self.cursor.offset + given) as u64,
                    length: (self.wanted(m) - given) as u64,
                },
            )
        } else {
            self.gaps@
        }
    }

    /// Whether the bytes gathered hash to the digest of the current piece.
    pub open spec fn digest_ok(&self, m: ManifestSpec) -> bool {
        sha1_of(self.buffer@) == m.piece_hashes[self.piece_index as int]
    }

    /// The next step of the run. While the piece lacks bytes that the stream
    /// still has, they are asked for. Else the piece is hashed, and a
    /// mismatch is laid to the file in which the piece begins. The run then
    /// ends or moves to the next piece.
    pub fn step(self, manifest: &Manifest) -> (step: Step)
        requires
            self.wf(manifest@),
        ensures
            self.wanted(manifest@) > 0 ==> (step matches Step::Read { run, file_index, offset, length }
                && run == self && file_index == self.cursor.file_index && offset
                == self.cursor.offset && length == self.wanted(manifest@)),
            self.wanted(manifest@) == 0 && self.ends(manifest@) ==> (step matches Step::Finished(
                outcome,
            ) && outcome@ == verdict(self.damaged_next(manifest@))),
            self.wanted(manifest@) == 0 && !self.digest_ok(manifest@) && self.mode
                == ScanMode::FailFast ==> (step matches Step::Finished(outcome) && outcome@
                == mismatch_outcome(manifest@, self.piece_index as nat)),
            self.wanted(manifest@) == 0 && !self.ends(manifest@) ==> (step matches Step::Continue(run)
                && run.wf(manifest@) && run.mode == self.mode && run.piece_index
                == self.piece_index + 1 && run.cursor == self.cursor && run.buffer@.len() == 0
                && run.gaps@.len() == 0 && findings_view(run.damaged@) == self.damaged_next(
                manifest@,
            ) && run.last_blamed == self.blamed_next(manifest@)),
    {
        let lacking: u64 = manifest.piece_length - self.buffer.len() as u64;
        let wanted: u64 = self.cursor.span(manifest, lacking);
        if wanted > 0 {
            let file_index: usize = self.cursor.file_index;
            let offset: u64 = self.cursor.offset;
            return Step::Read { run: self, file_index, offset, length: wanted as usize };
        }
        assert(manifest@.piece_hashes[self.piece_index as int]
            == manifest.piece_hashes@[self.piece_index as int]@);
        assert(self.piece_index < manifest.piece_hashes.len());
        let matches: bool = digest_matches(
            self.buffer.as_slice(),
            manifest.piece_hashes[self.piece_index].as_slice(),
        );
        let last: bool = self.piece_index + 1 == manifest.piece_hashes.len();
        let fail_fast: bool = match self.mode {
            ScanMode::FailFast => true,
            ScanMode::Exhaustive => false,
        };
        let repeated: bool = match self.last_blamed {
            Some(index) => index == self.start_file,
            None => false,
        };
        let mode = self.mode;
        let piece_index: usize = self.piece_index;
        let cursor = self.cursor;
        let blamed: Option<usize> = if matches {
            self.last_blamed
        } else {
            Some(self.start_file)
        };
        let ghost before = findings_view(self.damaged@);
        let ghost next = self.damaged_next(manifest@);
        let mut damaged = self.damaged;
        if !matches && !repeated {
            let finding = FileFinding::about(
                &manifest.files[self.start_file],
                FindingKind::ContentMismatch,
            );
            damaged.push(finding);
            assert(findings_view(damaged@) =~= before.push(finding@));
        }
        assert(findings_view(damaged@) == next);
        if last || (!matches && fail_fast) {
            if damaged.len() == 0 {
                return Step::Finished(VerificationOutcome::Verified);
            }
            let missing: Vec<FileFinding> = Vec::new();
            assert(findings_view(missing@) =~= Seq::empty());
            proof {
                if !matches && fail_fast {
                    assert(next =~= seq![
                        finding_about(
                            manifest@.files[manifest@.accused(piece_index as nat) as int],
                            FindingKind::ContentMismatch,
                        ),
                    ]);
                }
            }
            return Step::Finished(VerificationOutcome::Incomplete(missing, damaged));
        }
        proof {
            lemma_piece_gathered(manifest@, self);
            lemma_accused_at_cursor(manifest@, self.cursor, (self.piece_index + 1) as nat);
        }
        let start_file: usize = if cursor.file_index < manifest.files.len() {
            cursor.file_index
        } else {
            manifest.files.len() - 1
        };
        Step::Continue(
            VerifyRun {
                mode,
                damaged,
                last_blamed: blamed,
                piece_index: piece_index + 1,
                start_file,
                cursor,
                buffer: Vec::new(),
                gaps: Vec::new(),
            },
        )
    }

    /// Takes what was read for the last [`Step::Read`]: the bytes asked for,
    /// fewer where the file is shorter, none where it is gone. What is
    /// lacking counts as zeros, what is too much is left aside, and the
    /// cursor moves on by the length asked for. A run that asked for nothing
    /// stays as it is.
    pub fn supply(self, manifest: &Manifest, bytes: &[u8]) -> (next: VerifyRun)
        requires
            self.wf(manifest@),
        ensures
            next.wf(manifest@),
            next.mode == self.mode,
            next.damaged == self.damaged,
            next.last_blamed == self.last_blamed,
            next.piece_index == self.piece_index,
            next.start_file == self.start_file,
            next.buffer@ == self.buffer@ + padded(bytes@, self.wanted(manifest@)),
            next.gaps@ == self.gaps_after(manifest@, bytes@.len()),
            next.cursor.position(manifest@) == self.cursor.position(manifest@) + self.wanted(
                manifest@,
            ),
    {
        let lacking: u64 = manifest.piece_length - self.buffer.len() as u64;
        let wanted: u64 = self.cursor.span(manifest, lacking);
        let ghost before = self.buffer@;
        let mode = self.mode;
        let last_blamed: Option<usize> = self.last_blamed;
        let piece_index: usize = self.piece_index;
        let start_file: usize = self.start_file;
        let cursor = self.cursor.advance(manifest, wanted);
        let damaged = self.damaged;
        let mut gaps = self.gaps;
        if bytes.len() < wanted as usize {
            let given: u64 = bytes.len() as u64;
            gaps.push(
                PieceGap {
                    file_index: self.cursor.file_index,
                    offset: self.cursor.offset + given,
                    length: wanted - given,
                },
            );
        }
        let mut buffer = self.buffer;
        let mut j: usize = 0;
        while j < wanted as usize
            invariant
                j <= wanted,
                before.len() + wanted <= manifest.piece_length <= usize::MAX,
                buffer@ =~= before + padded(bytes@, wanted as nat).subrange(0, j as int),
            decreases wanted - j,
        {
            let byte: u8 = if j < bytes.len() {
                bytes[j]
            } else {
                0
            };
            buffer.push(byte);
            j += 1;
        }
        assert(padded(bytes@, wanted as nat).subrange(0, wanted as int) =~= padded(
            bytes@,
            wanted as nat,
        ));
        VerifyRun { mode, damaged, last_blamed, piece_index, start_file, cursor, buffer, gaps }
    }
}

/// Once a run wants no more bytes for its piece, the cursor rests on the
/// first byte of the next piece.
pub proof fn lemma_piece_gathered(m: ManifestSpec, run: VerifyRun)
    requires
        run.wf(m),
        run.wanted(m) == 0,
    ensures
        run.cursor.position(m) == m.piece_start((run.piece_index + 1) as nat),
{
    let k = run.piece_index as int;
    let unit = m.piece_length as int;
    lemma_position_bounded(m, run.cursor);
    assert((k + 1) * unit == k * unit + unit) by (nonlinear_arith);
}

/// Begins a full verification. `absent` says of each file of the manifest
/// whether the directory lacks it. With every file absent, or some, the run
/// is over before a piece is hashed; a manifest without pieces is verified
/// at once.
pub fn begin(manifest: &Manifest, absent: &Vec<bool>, mode: ScanMode) -> (begun: Result<
    Step,
    VerificationError,
>)
    requires
        manifest.wf(),
    ensures
        begun.is_err() <==> absent.len() != manifest.files.len(),
        begun matches Ok(step) ==> match presence_verdict(manifest@, absent@) {
            Some(decided) => step matches Step::Finished(outcome) && outcome@ == decided,
            None => if manifest.piece_hashes.len() == 0 {
                step matches Step::Finished(outcome) && outcome@ == OutcomeSpec::Verified
            } else {
                step matches Step::Continue(run) && run.wf(manifest@) && run.mode == mode
                    && run.piece_index == 0 && run.buffer@.len() == 0 && run.gaps@.len() == 0
                    && run.damaged@.len() == 0 && run.last_blamed is None
            },
        },
{
    if absent.len() != manifest.files.len() {
        return Err(VerificationError::WrongFileCount);
    }
    let missing = manifest.collect_flagged(absent, FindingKind::Missing);
    assert(findings_view(missing@).len() == missing@.len());
    if missing.len() == manifest.files.len() {
        return Ok(Step::Finished(VerificationOutcome::AllFilesMissing));
    }
    if missing.len() > 0 {
        let damaged: Vec<FileFinding> = Vec::new();
        assert(findings_view(damaged@) =~= Seq::empty());
        return Ok(Step::Finished(VerificationOutcome::Incomplete(missing, damaged)));
    }
    if manifest.piece_hashes.len() == 0 {
        return Ok(Step::Finished(VerificationOutcome::Verified));
    }
    let cursor = PieceCursor::start(manifest);
    proof {
        assert(0 * manifest@.piece_length == 0) by (nonlinear_arith);
        lemma_accused_at_cursor(manifest@, cursor, 0);
    }
    let start_file: usize = if cursor.file_index < manifest.files.len() {
        cursor.file_index
    } else {
        manifest.files.len() - 1
    };
    Ok(
        Step::Continue(
            VerifyRun {
                mode,
                damaged: Vec::new(),
                last_blamed: None,
                piece_index: 0,
                start_file,
                cursor,
                buffer: Vec::new(),
                gaps: Vec::new(),
            },
        ),
    )
}

} // verus!
