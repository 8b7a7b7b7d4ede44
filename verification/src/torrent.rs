//! Manifests from BitTorrent content descriptors.

use crate::manifest::refusal;
use crate::manifest::FileSpec;
use crate::manifest::Manifest;
use crate::manifest::ManifestError;
use crate::manifest::ManifestFile;
use crate::manifest::ManifestSpec;
use crate::nesting::is_shallow;
use crate::nesting::shallow;
use crate::path::clone_path;
use crate::path::path_view;
use lava_torrent::torrent::v1::Torrent;
use lava_torrent::LavaTorrentError;
use vstd::prelude::*;

verus! {

/// `lava_torrent::LavaTorrentError`, the error of the decoder. Nothing is
/// known of a value of it; it is only told from success.
#[verifier::external_type_specification]
#[verifier::external_body]
pub struct ExLavaTorrentError(LavaTorrentError);

/// A file as a content descriptor lists it.
#[derive(Debug)]
pub struct RawFile {
    pub path: Vec<String>,
    pub length: i64,
}

/// What a decoded content descriptor says of the pieces and the files.
/// `files` is `None` for a descriptor of a single file.
#[derive(Debug)]
pub struct RawTorrent {
    pub piece_length: i64,
    pub pieces: Vec<Vec<u8>>,
    pub files: Option<Vec<RawFile>>,
}

/// The mathematical value of a [`RawFile`].
pub struct RawFileSpec {
    pub path: Seq<Seq<char>>,
    pub length: int,
}

/// The mathematical value of a [`RawTorrent`].
pub struct RawTorrentSpec {
    pub piece_length: int,
    pub pieces: Seq<Seq<u8>>,
    pub files: Option<Seq<RawFileSpec>>,
}

impl View for RawFile {
    type V = RawFileSpec;

    open spec fn view(&self) -> RawFileSpec {
        RawFileSpec { path: path_view(self.path@), length: self.length as int }
    }
}

impl View for RawTorrent {
    type V = RawTorrentSpec;

    open spec fn view(&self) -> RawTorrentSpec {
        RawTorrentSpec {
            piece_length: self.piece_length as int,
            pieces: Seq::new(self.pieces@.len(), |i: int| self.pieces@[i]@),
            files: match self.files {
                Some(files) => Some(Seq::new(files@.len(), |i: int| files@[i]@)),
                None => None,
            },
        }
    }
}

/// What the decoder reads out of a content descriptor: the piece length, the
/// piece digests and the file list, or `None` where it refuses the bytes.
/// It is the same wherever the library is built for one target: the decoder
/// holds lengths in a `usize`, and paths in the target's syntax.
pub uninterp spec fn torrent_of(bytes: Seq<u8>) -> Option<RawTorrentSpec>;

/// Calls `lava_torrent::torrent::v1::Torrent::read_from_bytes` and hands
/// out the piece length, the piece digests and the file list of the torrent
/// that it returns, each path by its components.
///
/// The decoder calls itself once for every list and dictionary that it
/// enters, and nothing in it bounds how often. It is therefore called only
/// on bytes whose nesting is within the limit of [`shallow`], on which its
/// calls are nested no deeper than that limit.
///
/// Trusted: on such bytes the decoder returns. Whether it reads a torrent
/// out of the bytes, and which, rests on the bytes alone; the result is what
/// `torrent_of` names. In a torrent that was read the piece length is
/// positive, every piece digest is 20 bytes long, and a file list is not
/// empty and holds no negative length; the decoder refuses every descriptor
/// of which one of these fails.
#[verifier::external_body]
pub(crate) fn read_torrent(bytes: &[u8]) -> (read: Result<RawTorrent, LavaTorrentError>)
    requires
        shallow(bytes@),
    ensures
        read is Ok <==> torrent_of(bytes@) is Some,
        read matches Ok(raw) ==> torrent_of(bytes@) == Some(raw@),
        read matches Ok(raw) ==> raw.piece_length > 0,
        read matches Ok(raw) ==> forall|i: int|
            0 <= i < raw.pieces@.len() ==> (#[trigger] raw.pieces@[i])@.len() == 20,
        read matches Ok(raw) ==> (raw.files matches Some(files) ==> files@.len() > 0 && forall|
            i: int,
        |
            0 <= i < files@.len() ==> (#[trigger] files@[i]).length >= 0),
{
    let torrent = Torrent::read_from_bytes(bytes)?;
    let files = torrent.files.map(
        |list|
            list.into_iter().map(
                |file|
                    RawFile {
                        path: file.path.iter().map(|part| part.to_string_lossy().into_owned()).collect(),
                        length: file.length,
                    },
            ).collect(),
    );
    Ok(RawTorrent { piece_length: torrent.piece_length, pieces: torrent.pieces, files })
}

/// Whether a decoded descriptor holds a negative length.
pub open spec fn has_negative_length(raw: RawTorrentSpec) -> bool {
    raw.piece_length < 0 || (raw.files matches Some(files) && exists|i: int|
        0 <= i < files.len() && (#[trigger] files[i]).length < 0)
}

/// The manifest value that a decoded descriptor with a file list and
/// without negative lengths stands for.
pub open spec fn raw_manifest(raw: RawTorrentSpec) -> ManifestSpec {
    ManifestSpec {
        piece_length: raw.piece_length as nat,
        piece_hashes: raw.pieces,
        files: Seq::new(
            raw.files.unwrap().len(),
            |i: int|
                FileSpec {
                    path: raw.files.unwrap()[i].path,
                    length: raw.files.unwrap()[i].length as nat,
                },
        ),
    }
}

/// Why a decoded descriptor gives no manifest, if it gives none.
pub open spec fn raw_refusal(raw: RawTorrentSpec) -> Option<ManifestError> {
    if raw.files is None {
        Some(ManifestError::NoFileList)
    } else if has_negative_length(raw) {
        Some(ManifestError::NegativeLength)
    } else {
        refusal(raw_manifest(raw))
    }
}

/// What decoding a content descriptor gives: the manifest that the torrent
/// which the decoder reads stands for, or why there is none. Bytes that are
/// nested beyond the limit are not handed to the decoder; bytes that the
/// decoder refuses are malformed.
pub open spec fn decoding(bytes: Seq<u8>) -> Result<ManifestSpec, ManifestError> {
    if !shallow(bytes) {
        Err(ManifestError::NestedTooDeep)
    } else {
        match torrent_of(bytes) {
            None => Err(ManifestError::Malformed),
            Some(raw) => match raw_refusal(raw) {
                Some(error) => Err(error),
                None => Ok(raw_manifest(raw)),
            },
        }
    }
}

impl Manifest {
    /// The manifest of a decoded content descriptor. A descriptor without a
    /// file list or with a negative length gives none, nor does one whose
    /// manifest cannot be verified against.
    pub fn from_raw(raw: RawTorrent) -> (made: Result<Manifest, ManifestError>)
        ensures
            match raw_refusal(raw@) {
                Some(error) => made == Err::<Manifest, _>(error),
                None => made matches Ok(m) && m.wf() && m@ == raw_manifest(raw@),
            },
    {
        let ghost given = raw;
        let RawTorrent { piece_length, pieces, files } = raw;
        let listed: Vec<RawFile> = match files {
            Some(listed) => listed,
            None => {
                return Err(ManifestError::NoFileList);
            },
        };
        if piece_length < 0 {
            return Err(ManifestError::NegativeLength);
        }
        let mut made: Vec<ManifestFile> = Vec::new();
        let mut i: usize = 0;
        while i < listed.len()
            invariant
                i <= listed.len(),
                made@.len() == i,
                given == raw,
                given.files == Some(listed),
                forall|j: int| 0 <= j < i ==> (#[trigger] listed@[j]).length >= 0,
                forall|j: int|
                    0 <= j < i ==> (#[trigger] made@[j])@ == (FileSpec {
                        path: path_view(listed@[j].path@),
                        length: listed@[j].length as nat,
                    }),
            decreases listed.len() - i,
        {
            let length: i64 = listed[i].length;
            if length < 0 {
                assert(given@.files.unwrap()[i as int].length < 0);
                return Err(ManifestError::NegativeLength);
            }
            made.push(
                ManifestFile { relative_path: clone_path(&listed[i].path), length: length as u64 },
            );
            i += 1;
        }
        assert(!has_negative_length(given@));
        let ghost wanted = raw_manifest(given@);
        assert((Manifest { piece_length: piece_length as u64, piece_hashes: pieces, files: made })@
            =~= wanted) by {
            assert((Manifest {
                piece_length: piece_length as u64,
                piece_hashes: pieces,
                files: made,
            })@.files =~= wanted.files);
        }
        Manifest::new(piece_length as u64, pieces, made)
    }

    /// Decodes a BitTorrent content descriptor into a manifest. A descriptor
    /// that is nested beyond the limit is refused unread. What the decoder
    /// refuses is malformed; what it accepts is held to what a manifest must
    /// satisfy.
    pub fn decode(bytes: &[u8]) -> (decoded: Result<Manifest, ManifestError>)
        ensures
            match decoding(bytes@) {
                Ok(manifest) => decoded matches Ok(m) && m.wf() && m@ == manifest,
                Err(error) => decoded == Err::<Manifest, _>(error),
            },
            decoded matches Ok(m) ==> m.files@.len() >= 1 && forall|i: int|
                0 <= i < m.piece_hashes@.len() ==> (#[trigger] m.piece_hashes@[i])@.len() == 20,
            decoded matches Err(error) ==> error == ManifestError::NestedTooDeep || error
                == ManifestError::Malformed || error == ManifestError::NoFileList || error
                == ManifestError::PieceTooLarge || error == ManifestError::PieceCountMismatch,
    {
        if !is_shallow(bytes) {
            return Err(ManifestError::NestedTooDeep);
        }
        match read_torrent(bytes) {
            Err(_) => Err(ManifestError::Malformed),
            Ok(raw) => {
                let ghost given = raw;
                let made = Manifest::from_raw(raw);
                proof {
                    if given.files is Some {
                        let files = given.files.unwrap();
                        assert forall|i: int| 0 <= i < files@.len() implies given@.files.unwrap()[i].length
                            >= 0 by {
                            assert(given@.files.unwrap()[i] == files@[i]@);
                        }
                        assert(!has_negative_length(given@));
                        if made is Ok {
                            let m = made.unwrap();
                            assert(m@.files.len() == m.files@.len());
                            assert(m@.piece_hashes.len() == m.piece_hashes@.len());
                            assert forall|i: int| 0 <= i < m.piece_hashes@.len() implies (
                            #[trigger] m.piece_hashes@[i])@.len() == 20 by {
                                assert(m@.piece_hashes[i] == m.piece_hashes@[i]@);
                                assert(given@.pieces[i] == given.pieces@[i]@);
                            }
                        }
                    }
                }
                made
            },
        }
    }
}

} // verus!
