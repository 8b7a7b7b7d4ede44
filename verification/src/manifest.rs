//! The manifest of a release: its files in stream order and the digests of
//! the pieces of their concatenation.

use crate::path::clone_path;
use crate::path::path_view;
use vstd::prelude::*;

verus! {

/// One file of a manifest: its path below the release root and its length.
#[derive(Debug)]
pub struct ManifestFile {
    pub relative_path: Vec<String>,
    pub length: u64,
}

/// The mathematical value of a [`ManifestFile`].
pub struct FileSpec {
    pub path: Seq<Seq<char>>,
    pub length: nat,
}

impl View for ManifestFile {
    type V = FileSpec;

    open spec fn view(&self) -> FileSpec {
        FileSpec { path: path_view(self.relative_path@), length: self.length as nat }
    }
}

/// A decoded content descriptor. The order of `files` is the order in which
/// their bytes are concatenated before the stream is cut into pieces.
#[derive(Debug)]
pub struct Manifest {
    pub piece_length: u64,
    pub piece_hashes: Vec<Vec<u8>>,
    pub files: Vec<ManifestFile>,
}

/// The mathematical value of a [`Manifest`].
pub struct ManifestSpec {
    pub piece_length: nat,
    pub piece_hashes: Seq<Seq<u8>>,
    pub files: Seq<FileSpec>,
}

impl View for Manifest {
    type V = ManifestSpec;

    open spec fn view(&self) -> ManifestSpec {
        ManifestSpec {
            piece_length: self.piece_length as nat,
            piece_hashes: Seq::new(self.piece_hashes@.len(), |i: int| self.piece_hashes@[i]@),
            files: Seq::new(self.files@.len(), |i: int| self.files@[i]@),
        }
    }
}

/// Why a manifest was refused.
#[derive(Debug, Clone, Copy, PartialEq, Eq, Structural)]
pub enum ManifestError {
    /// The content descriptor could not be decoded.
    Malformed,
    /// The lists and dictionaries of the content descriptor are nested more
    /// deeply than the decoder is trusted with.
    NestedTooDeep,
    /// The descriptor describes a single file and carries no file list.
    NoFileList,
    /// A length in the descriptor is negative.
    NegativeLength,
    /// The piece length is zero.
    ZeroPieceLength,
    /// A piece would not fit into memory on this machine.
    PieceTooLarge,
    /// The files do not fill all pieces but possibly the last, or overflow them.
    PieceCountMismatch,
}

impl ManifestSpec {
    /// The total length of the first `n` files: the stream position at which
    /// file `n` begins. More files than the manifest has count as none.
    pub open spec fn prefix(self, n: nat) -> nat
        decreases n,
    {
        if n == 0 || n > self.files.len() {
            0
        } else {
            self.prefix((n - 1) as nat) + self.files[n - 1].length
        }
    }

    /// The length of the whole stream.
    pub open spec fn total(self) -> nat {
        self.prefix(self.files.len())
    }

    /// The files fill every piece but possibly the last, and no more.
    pub open spec fn balanced(self) -> bool {
        &&& (self.piece_hashes.len() - 1) * self.piece_length <= self.total()
        &&& self.total() <= self.piece_hashes.len() * self.piece_length
    }

    /// What a manifest must satisfy to be verified against.
    pub open spec fn wf(self) -> bool {
        &&& 1 <= self.piece_length <= usize::MAX
        &&& self.balanced()
    }

    /// The stream position at which piece `k` begins.
    pub open spec fn piece_start(self, k: nat) -> nat {
        if k * self.piece_length <= self.total() {
            k * self.piece_length
        } else {
            self.total()
        }
    }

    /// Whether file `i` holds the byte at stream position `p`.
    pub open spec fn holds_position(self, i: nat, p: nat) -> bool {
        i < self.files.len() && self.prefix(i) <= p < self.prefix(i + 1)
    }
}

/// The stream positions at which files begin never decrease.
pub proof fn lemma_prefix_monotone(m: ManifestSpec, i: nat, j: nat)
    requires
        i <= j <= m.files.len(),
    ensures
        m.prefix(i) <= m.prefix(j),
    decreases j,
{
    if i < j {
        lemma_prefix_monotone(m, i, (j - 1) as nat);
    }
}

/// At most one file holds a given stream position.
pub proof fn lemma_holder_unique(m: ManifestSpec, i: nat, j: nat, p: nat)
    requires
        m.holds_position(i, p),
        m.holds_position(j, p),
    ensures
        i == j,
{
    if i < j {
        lemma_prefix_monotone(m, i + 1, j);
    } else if j < i {
        lemma_prefix_monotone(m, j + 1, i);
    }
}

impl Manifest {
    /// Whether this manifest can be verified against.
    pub open spec fn wf(&self) -> bool {
        self@.wf()
    }

    /// The total length of the first `n` files, or `None` where it exceeds
    /// `limit`. More files than the manifest has count as none.
    pub fn prefix_within(&self, n: usize, limit: u128) -> (sum: Option<u128>)
        ensures
            sum == if self@.prefix(n as nat) <= limit {
                Some(self@.prefix(n as nat) as u128)
            } else {
                None::<u128>
            },
    {
        if n > self.files.len() {
            return Some(0);
        }
        let mut sum: u128 = 0;
        let mut i: usize = 0;
        while i < n
            invariant
                i <= n <= self.files.len(),
                sum == self@.prefix(i as nat),
                sum <= limit,
            decreases n - i,
        {
            let length: u64 = self.files[i].length;
            assert(self@.files[i as int].length == length);
            assert(self@.prefix((i + 1) as nat) == self@.prefix(i as nat) + length);
            if length as u128 > limit - sum {
                proof {
                    lemma_prefix_monotone(self@, (i + 1) as nat, n as nat);
                }
                return None;
            }
            sum = sum + length as u128;
            i += 1;
        }
        Some(sum)
    }

    /// Builds a manifest, refusing one that cannot be verified against.
    pub fn new(piece_length: u64, piece_hashes: Vec<Vec<u8>>, files: Vec<ManifestFile>) -> (made:
        Result<Manifest, ManifestError>)
        ensures
            made matches Ok(m) ==> m.wf() && m.piece_length == piece_length && m.piece_hashes
                == piece_hashes && m.files == files,
            made matches Err(e) ==> e == refusal(
                (Manifest { piece_length, piece_hashes, files })@,
            ).unwrap(),
            made.is_ok() <==> refusal((Manifest { piece_length, piece_hashes, files })@).is_none(),
    {
        let m = Manifest { piece_length, piece_hashes, files };
        if piece_length == 0 {
            return Err(ManifestError::ZeroPieceLength);
        }
        if piece_length > usize::MAX as u64 {
            return Err(ManifestError::PieceTooLarge);
        }
        let pieces: u128 = m.piece_hashes.len() as u128;
        assert(pieces * (piece_length as u128) <= 0xffff_ffff_ffff_ffff * 0xffff_ffff_ffff_ffff)
            by (nonlinear_arith)
            requires
                pieces <= 0xffff_ffff_ffff_ffff,
                piece_length <= 0xffff_ffff_ffff_ffff,
        ;
        let capacity: u128 = pieces * (piece_length as u128);
        assert(m@.piece_hashes.len() * m@.piece_length == capacity);
        let ghost count: int = m@.piece_hashes.len() as int;
        let ghost unit: int = m@.piece_length as int;
        match m.prefix_within(m.files.len(), capacity) {
            None => Err(ManifestError::PieceCountMismatch),
            Some(total) => {
                if pieces >= 1 {
                    assert((count - 1) * unit == capacity - unit && capacity >= unit)
                        by (nonlinear_arith)
                        requires
                            count * unit == capacity,
                            count >= 1,
                            unit >= 1,
                    ;
                    if total < capacity - piece_length as u128 {
                        return Err(ManifestError::PieceCountMismatch);
                    }
                } else {
                    assert((count - 1) * unit <= 0) by (nonlinear_arith)
                        requires
                            count == 0,
                            unit >= 1,
                    ;
                }
                Ok(m)
            },
        }
    }
}

impl Manifest {
    /// The paths and lengths of the files, in the order of the manifest.
    pub fn tree(&self) -> (tree: Vec<(Vec<String>, u64)>)
        ensures
            tree@.len() == self.files@.len(),
            forall|i: int|
                0 <= i < tree@.len() ==> path_view((#[trigger] tree@[i]).0@)
                    == self@.files[i].path && tree@[i].1 == self@.files[i].length,
    {
        let mut tree: Vec<(Vec<String>, u64)> = Vec::new();
        let mut i: usize = 0;
        while i < self.files.len()
            invariant
                i <= self.files.len(),
                tree@.len() == i,
                forall|j: int|
                    0 <= j < i ==> path_view((#[trigger] tree@[j]).0@) == self@.files[j].path
                        && tree@[j].1 == self@.files[j].length,
            decreases self.files.len() - i,
        {
            assert(self@.files[i as int] == self.files@[i as int]@);
            tree.push((clone_path(&self.files[i].relative_path), self.files[i].length));
            i += 1;
        }
        tree
    }

    /// The length of the whole stream, where a `u64` holds it.
    pub fn total_size(&self) -> (size: Option<u64>)
        ensures
            size == if self@.total() <= u64::MAX {
                Some(self@.total() as u64)
            } else {
                None::<u64>
            },
    {
        match self.prefix_within(self.files.len(), 0xffff_ffff_ffff_ffff) {
            Some(total) => Some(total as u64),
            None => None,
        }
    }

    /// The directory of the release: the first component of the path of the
    /// first file, where there is one.
    pub fn top_directory(&self) -> (directory: Option<String>)
        ensures
            directory is Some <==> self@.files.len() > 0 && self@.files[0].path.len() > 0,
            directory matches Some(name) ==> name@ == self@.files[0].path[0],
    {
        if self.files.len() == 0 {
            return None;
        }
        assert(self@.files[0] == self.files@[0]@);
        if self.files[0].relative_path.len() == 0 {
            return None;
        }
        Some(self.files[0].relative_path[0].clone())
    }
}

/// What a manifest says of its release as a whole.
#[derive(Debug)]
pub struct ReleaseSummary {
    pub directory: String,
    pub file_count: usize,
    pub size: u64,
}

/// Why a manifest gives no summary of its release.
#[derive(Debug, Clone, Copy, PartialEq, Eq, Structural)]
pub enum SummaryError {
    /// There is no first file, or its path has no component.
    NoDirectory,
    /// The files together are longer than a `u64` holds.
    SizeTooLarge,
}

/// Why a manifest value gives no summary, if it gives none.
pub open spec fn summary_refusal(m: ManifestSpec) -> Option<SummaryError> {
    if m.files.len() == 0 || m.files[0].path.len() == 0 {
        Some(SummaryError::NoDirectory)
    } else if m.total() > u64::MAX {
        Some(SummaryError::SizeTooLarge)
    } else {
        None
    }
}

impl Manifest {
    /// The directory of the release, the number of its files and their
    /// length together.
    pub fn summary(&self) -> (summary: Result<ReleaseSummary, SummaryError>)
        ensures
            match summary_refusal(self@) {
                Some(error) => summary matches Err(e) && e == error,
                None => summary matches Ok(s) && s.directory@ == self@.files[0].path[0]
                    && s.file_count == self@.files.len() && s.size == self@.total(),
            },
    {
        let directory = match self.top_directory() {
            Some(name) => name,
            None => {
                return Err(SummaryError::NoDirectory);
            },
        };
        match self.total_size() {
            Some(size) => Ok(ReleaseSummary { directory, file_count: self.files.len(), size }),
            None => Err(SummaryError::SizeTooLarge),
        }
    }
}

/// Why a manifest value is refused, if it is.
pub open spec fn refusal(m: ManifestSpec) -> Option<ManifestError> {
    if m.piece_length == 0 {
        Some(ManifestError::ZeroPieceLength)
    } else if m.piece_length > usize::MAX {
        Some(ManifestError::PieceTooLarge)
    } else if !m.balanced() {
        Some(ManifestError::PieceCountMismatch)
    } else {
        None
    }
}

} // verus!
