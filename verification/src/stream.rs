//! The stream of a release as a directory holds it: the files of the
//! manifest laid end to end, each cut or zero-filled to its length.

use crate::cursor::lemma_position_bounded;
use crate::cursor::PieceCursor;
use crate::digest::sha1_of;
use crate::manifest::lemma_holder_unique;
use crate::manifest::lemma_prefix_monotone;
use crate::manifest::FileSpec;
use crate::manifest::ManifestSpec;
use vstd::prelude::*;

verus! {

/// `content` cut or zero-filled to `length` bytes.
pub open spec fn padded(content: Seq<u8>, length: nat) -> Seq<u8> {
    Seq::new(
        length,
        |j: int|
            if j < content.len() {
                content[j]
            } else {
                0u8
            },
    )
}

/// The part of the stream that a file fills: its content where the
/// directory holds it, zeros where it does not.
pub open spec fn window(file: FileSpec, state: Option<Seq<u8>>) -> Seq<u8> {
    match state {
        Some(content) => padded(content, file.length),
        None => padded(Seq::empty(), file.length),
    }
}

/// What reading up to `length` bytes at `offset` gives: the bytes that the
/// file holds there, none where it is absent or ends before `offset`.
pub open spec fn read_at(state: Option<Seq<u8>>, offset: nat, length: nat) -> Seq<u8> {
    match state {
        Some(content) => if offset >= content.len() {
            Seq::empty()
        } else if offset + length <= content.len() {
            content.subrange(offset as int, (offset + length) as int)
        } else {
            content.subrange(offset as int, content.len() as int)
        },
        None => Seq::empty(),
    }
}

impl ManifestSpec {
    /// The first `n` files of the stream as `dir` holds them.
    pub open spec fn stream(self, dir: Seq<Option<Seq<u8>>>, n: nat) -> Seq<u8>
        decreases n,
    {
        if n == 0 || n > self.files.len() {
            Seq::empty()
        } else {
            self.stream(dir, (n - 1) as nat) + window(self.files[n - 1], dir[n - 1])
        }
    }

    /// The whole stream as `dir` holds it.
    pub open spec fn full_stream(self, dir: Seq<Option<Seq<u8>>>) -> Seq<u8> {
        self.stream(dir, self.files.len())
    }

    /// Piece `k` of the stream as `dir` holds it. The last piece may be short.
    pub open spec fn piece(self, dir: Seq<Option<Seq<u8>>>, k: nat) -> Seq<u8> {
        self.full_stream(dir).subrange(self.piece_start(k) as int, self.piece_start(k + 1) as int)
    }

    /// Whether piece `k` of `dir` hashes to the digest that the manifest gives.
    pub open spec fn piece_matches(self, dir: Seq<Option<Seq<u8>>>, k: nat) -> bool {
        sha1_of(self.piece(dir, k)) == self.piece_hashes[k as int]
    }

    /// The first piece from `from` on that does not hash to its digest.
    pub open spec fn first_mismatch(self, dir: Seq<Option<Seq<u8>>>, from: nat) -> Option<nat>
        decreases self.piece_hashes.len() - from,
    {
        if from >= self.piece_hashes.len() {
            None
        } else if !self.piece_matches(dir, from) {
            Some(from)
        } else {
            self.first_mismatch(dir, from + 1)
        }
    }

    /// The file that a mismatch of piece `k` is laid to: the one that holds
    /// the first byte of the piece, or the last file where the piece begins
    /// behind the end of the stream.
    pub open spec fn accused(self, k: nat) -> nat {
        let p = self.piece_start(k);
        if exists|i: nat| self.holds_position(i, p) {
            choose|i: nat| self.holds_position(i, p)
        } else {
            (self.files.len() - 1) as nat
        }
    }
}

/// The first `n` files of the stream are as long as their lengths together.
pub proof fn lemma_stream_len(m: ManifestSpec, dir: Seq<Option<Seq<u8>>>, n: nat)
    requires
        n <= m.files.len(),
    ensures
        m.stream(dir, n).len() == m.prefix(n),
    decreases n,
{
    if n > 0 {
        lemma_stream_len(m, dir, (n - 1) as nat);
    }
}

/// Byte `j` of file `i` stands in the stream at the position where the file
/// begins plus `j`.
pub proof fn lemma_stream_index(m: ManifestSpec, dir: Seq<Option<Seq<u8>>>, n: nat, i: nat, j: nat)
    requires
        i < n <= m.files.len(),
        j < m.files[i as int].length,
    ensures
        m.prefix(i) + j < m.stream(dir, n).len(),
        m.stream(dir, n)[(m.prefix(i) + j) as int] == window(m.files[i as int], dir[i as int])[j as int],
    decreases n,
{
    lemma_stream_len(m, dir, n);
    lemma_stream_len(m, dir, (n - 1) as nat);
    if i + 1 < n {
        lemma_stream_index(m, dir, (n - 1) as nat, i, j);
        lemma_prefix_monotone(m, i + 1, (n - 1) as nat);
    }
}

/// A stretch of a file stands in the stream where the file begins.
pub proof fn lemma_stream_slice(m: ManifestSpec, dir: Seq<Option<Seq<u8>>>, i: nat, offset: nat, length: nat)
    requires
        i < m.files.len(),
        offset + length <= m.files[i as int].length,
    ensures
        m.prefix(i) + offset + length <= m.full_stream(dir).len(),
        m.full_stream(dir).subrange((m.prefix(i) + offset) as int, (m.prefix(i) + offset + length) as int) == window(
            m.files[i as int],
            dir[i as int],
        ).subrange(offset as int, (offset + length) as int),
{
    let full = m.full_stream(dir);
    let win = window(m.files[i as int], dir[i as int]);
    lemma_stream_len(m, dir, m.files.len());
    lemma_prefix_monotone(m, i + 1, m.files.len());
    let left = full.subrange((m.prefix(i) + offset) as int, (m.prefix(i) + offset + length) as int);
    let right = win.subrange(offset as int, (offset + length) as int);
    assert forall|j: int| 0 <= j < length implies left[j] == right[j] by {
        lemma_stream_index(m, dir, m.files.len(), i, (offset + j) as nat);
    }
    assert(left =~= right);
}

/// What a read gives, cut or zero-filled to the length asked for, is the
/// stretch of the file's window.
pub proof fn lemma_read_window(file: FileSpec, state: Option<Seq<u8>>, offset: nat, length: nat)
    requires
        offset + length <= file.length,
    ensures
        padded(read_at(state, offset, length), length) == window(file, state).subrange(
            offset as int,
            (offset + length) as int,
        ),
{
    assert(padded(read_at(state, offset, length), length) =~= window(file, state).subrange(
        offset as int,
        (offset + length) as int,
    ));
}

/// The file that a mismatch is laid to is the one the cursor rests on at the
/// first byte of the piece.
pub proof fn lemma_accused_at_cursor(m: ManifestSpec, cursor: PieceCursor, k: nat)
    requires
        cursor.wf(m),
        cursor.position(m) == m.piece_start(k),
        m.files.len() >= 1,
    ensures
        m.accused(k) < m.files.len(),
        cursor.file_index < m.files.len() ==> m.accused(k) == cursor.file_index,
        cursor.file_index == m.files.len() ==> m.accused(k) == m.files.len() - 1,
{
    let p = m.piece_start(k);
    lemma_position_bounded(m, cursor);
    if cursor.file_index < m.files.len() {
        let i = choose|i: nat| m.holds_position(i, p);
        lemma_holder_unique(m, i, cursor.file_index as nat, p);
    } else {
        assert forall|i: nat| !m.holds_position(i, p) by {
            if i < m.files.len() {
                lemma_prefix_monotone(m, i + 1, m.files.len());
            }
        }
    }
}

} // verus!
