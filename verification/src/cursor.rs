//! The position of a verification run in the stream of a manifest.

use crate::manifest::lemma_prefix_monotone;
use crate::manifest::Manifest;
use crate::manifest::ManifestSpec;
use vstd::prelude::*;

verus! {

/// A position in the stream, as a file and an offset into it. The cursor
/// never rests on the end of a file: it rests on the next byte of the
/// stream, or behind the last file.
#[derive(Debug, Clone, Copy, PartialEq, Eq, Structural)]
pub struct PieceCursor {
    pub file_index: usize,
    pub offset: u64,
}

impl PieceCursor {
    /// The cursor rests on a byte of the stream or behind its last file.
    pub open spec fn wf(self, m: ManifestSpec) -> bool {
        &&& self.file_index <= m.files.len()
        &&& self.file_index < m.files.len() ==> self.offset < m.files[self.file_index as int].length
        &&& self.file_index == m.files.len() ==> self.offset == 0
    }

    /// The stream position that the cursor rests on.
    pub open spec fn position(self, m: ManifestSpec) -> nat {
        m.prefix(self.file_index as nat) + self.offset as nat
    }

    /// How many bytes the current file holds from the cursor on.
    pub open spec fn available(self, m: ManifestSpec) -> nat {
        if self.file_index < m.files.len() {
            (m.files[self.file_index as int].length - self.offset) as nat
        } else {
            0
        }
    }

    /// The cursor on the first byte of file `file_index` or, where that file
    /// and those behind it are empty or there is no such file, behind the
    /// last file.
    pub fn at_file(manifest: &Manifest, file_index: usize) -> (cursor: PieceCursor)
        ensures
            cursor.wf(manifest@),
            cursor.position(manifest@) == if file_index <= manifest.files.len() {
                manifest@.prefix(file_index as nat)
            } else {
                manifest@.total()
            },
    {
        if file_index > manifest.files.len() {
            return PieceCursor { file_index: manifest.files.len(), offset: 0 };
        }
        let mut i: usize = file_index;
        while i < manifest.files.len() && manifest.files[i].length == 0
            invariant
                file_index <= i <= manifest.files.len(),
                manifest@.prefix(i as nat) == manifest@.prefix(file_index as nat),
            decreases manifest.files.len() - i,
        {
            assert(manifest@.files[i as int].length == 0);
            assert(manifest@.prefix((i + 1) as nat) == manifest@.prefix(i as nat)
                + manifest@.files[i as int].length);
            i += 1;
        }
        PieceCursor { file_index: i, offset: 0 }
    }

    /// The cursor on the first byte of the stream.
    pub fn start(manifest: &Manifest) -> (cursor: PieceCursor)
        ensures
            cursor.wf(manifest@),
            cursor.position(manifest@) == 0,
    {
        PieceCursor::at_file(manifest, 0)
    }

    /// How many of `wanted` bytes the current file can give.
    pub fn span(&self, manifest: &Manifest, wanted: u64) -> (span: u64)
        requires
            self.wf(manifest@),
        ensures
            span == if wanted <= self.available(manifest@) {
                wanted as nat
            } else {
                self.available(manifest@)
            },
    {
        if self.file_index < manifest.files.len() {
            let left: u64 = manifest.files[self.file_index].length - self.offset;
            if wanted <= left {
                wanted
            } else {
                left
            }
        } else {
            0
        }
    }

    /// The cursor `span` bytes further on in the stream, or at the end of
    /// the current file where that holds fewer.
    pub fn advance(self, manifest: &Manifest, span: u64) -> (next: PieceCursor)
        requires
            self.wf(manifest@),
        ensures
            next.wf(manifest@),
            next.position(manifest@) == self.position(manifest@) + if span <= self.available(
                manifest@,
            ) {
                span as nat
            } else {
                self.available(manifest@)
            },
    {
        if self.file_index < manifest.files.len() {
            let length: u64 = manifest.files[self.file_index].length;
            assert(manifest@.files[self.file_index as int].length == length);
            if span >= length - self.offset {
                assert(manifest@.prefix((self.file_index + 1) as nat) == manifest@.prefix(
                    self.file_index as nat,
                ) + length);
                PieceCursor::at_file(manifest, self.file_index + 1)
            } else {
                PieceCursor { file_index: self.file_index, offset: self.offset + span }
            }
        } else {
            self
        }
    }
}

/// The stream position of a cursor lies in the stream.
pub proof fn lemma_position_bounded(m: ManifestSpec, cursor: PieceCursor)
    requires
        cursor.wf(m),
    ensures
        cursor.position(m) + cursor.available(m) <= m.total(),
        cursor.file_index < m.files.len() ==> m.holds_position(
            cursor.file_index as nat,
            cursor.position(m),
        ),
        cursor.file_index == m.files.len() ==> cursor.position(m) == m.total(),
{
    if cursor.file_index < m.files.len() {
        lemma_prefix_monotone(m, (cursor.file_index + 1) as nat, m.files.len());
    }
}

/// A stream position has one cursor only.
pub proof fn lemma_cursor_unique(m: ManifestSpec, a: PieceCursor, b: PieceCursor)
    requires
        a.wf(m),
        b.wf(m),
        a.position(m) == b.position(m),
    ensures
        a == b,
{
    lemma_position_bounded(m, a);
    lemma_position_bounded(m, b);
    if a.file_index < b.file_index {
        lemma_prefix_monotone(m, (a.file_index + 1) as nat, b.file_index as nat);
    } else if b.file_index < a.file_index {
        lemma_prefix_monotone(m, (b.file_index + 1) as nat, a.file_index as nat);
    }
}

} // verus!
