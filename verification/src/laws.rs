//! What holds of the two verification procedures on every manifest and
//! every directory.

use crate::check::absent_sizes;
use crate::check::check_outcome;
use crate::check::size_differs;
use crate::digest::sha1_of;
use crate::manifest::ManifestSpec;
use crate::outcome::FindingKind;
use crate::outcome::OutcomeSpec;
use crate::run::mismatch_outcome;
use crate::run::presence_verdict;
use crate::scan::lemma_flagged_count;
use crate::stream::lemma_stream_index;
use crate::stream::lemma_stream_len;
use crate::stream::window;
use crate::verify::absent_flags;
use crate::verify::exhaustive_outcome;
use crate::verify::verify_outcome;
use vstd::prelude::*;

verus! {

/// Where every piece from `from` on hashes to its digest, there is no first
/// mismatch from `from` on.
pub proof fn lemma_no_mismatch(m: ManifestSpec, dir: Seq<Option<Seq<u8>>>, from: nat)
    requires
        forall|k: nat| from <= k < m.piece_hashes.len() ==> m.piece_matches(dir, k),
    ensures
        m.first_mismatch(dir, from) is None,
    decreases m.piece_hashes.len() - from,
{
    if from < m.piece_hashes.len() {
        lemma_no_mismatch(m, dir, from + 1);
    }
}

/// Where piece `k` is the first from `from` on that does not hash to its
/// digest, it is the first mismatch from `from` on.
pub proof fn lemma_first_mismatch(m: ManifestSpec, dir: Seq<Option<Seq<u8>>>, from: nat, k: nat)
    requires
        from <= k < m.piece_hashes.len(),
        forall|j: nat| from <= j < k ==> m.piece_matches(dir, j),
        !m.piece_matches(dir, k),
    ensures
        m.first_mismatch(dir, from) == Some(k),
    decreases k - from,
{
    if from < k {
        lemma_first_mismatch(m, dir, from + 1, k);
    }
}

/// With every file of the manifest absent, a full verification finds the
/// release missing.
pub proof fn lemma_verify_all_absent(m: ManifestSpec, dir: Seq<Option<Seq<u8>>>)
    requires
        dir.len() == m.files.len(),
        forall|i: int| 0 <= i < dir.len() ==> dir[i] is None,
    ensures
        verify_outcome(m, dir) == OutcomeSpec::AllFilesMissing,
{
    lemma_flagged_count(m.files, absent_flags(dir), FindingKind::Missing, m.files.len());
}

/// With every file of the manifest absent, a fast check finds the release
/// missing, whatever names are disposable.
pub proof fn lemma_check_all_absent(
    m: ManifestSpec,
    sizes: Seq<Option<u64>>,
    disposable: Seq<Seq<char>>,
)
    requires
        sizes.len() == m.files.len(),
        forall|i: int| 0 <= i < sizes.len() ==> sizes[i] is None,
    ensures
        check_outcome(m, sizes, disposable) == OutcomeSpec::AllFilesMissing,
{
    lemma_flagged_count(m.files, absent_sizes(sizes), FindingKind::Missing, m.files.len());
}

/// With every file present and every piece hashing to its digest, a full
/// verification of a manifest that has files finds the release verified.
pub proof fn lemma_verify_faithful(m: ManifestSpec, dir: Seq<Option<Seq<u8>>>)
    requires
        m.files.len() >= 1,
        dir.len() == m.files.len(),
        forall|i: int| 0 <= i < dir.len() ==> dir[i] is Some,
        forall|k: nat| k < m.piece_hashes.len() ==> m.piece_matches(dir, k),
    ensures
        verify_outcome(m, dir) == OutcomeSpec::Verified,
{
    lemma_flagged_count(m.files, absent_flags(dir), FindingKind::Missing, m.files.len());
    lemma_no_mismatch(m, dir, 0);
}

/// With every file present in the size that the manifest gives, a fast check
/// of a manifest that has files finds the release complete.
pub proof fn lemma_check_faithful(
    m: ManifestSpec,
    sizes: Seq<Option<u64>>,
    disposable: Seq<Seq<char>>,
)
    requires
        m.files.len() >= 1,
        sizes.len() == m.files.len(),
        forall|i: int| 0 <= i < sizes.len() ==> sizes[i] == Some(m.files[i].length as u64),
        forall|i: int| 0 <= i < m.files.len() ==> m.files[i].length <= u64::MAX,
    ensures
        check_outcome(m, sizes, disposable) == OutcomeSpec::Complete,
{
    lemma_flagged_count(m.files, absent_sizes(sizes), FindingKind::Missing, m.files.len());
    lemma_flagged_count(
        m.files,
        size_differs(m, sizes),
        FindingKind::SizeMismatch,
        m.files.len(),
    );
}

/// Two full verifications of one directory against one manifest have the
/// same outcome.
pub proof fn lemma_verify_repeatable(
    m: ManifestSpec,
    dir: Seq<Option<Seq<u8>>>,
    first: OutcomeSpec,
    second: OutcomeSpec,
)
    requires
        first == verify_outcome(m, dir),
        second == verify_outcome(m, dir),
    ensures
        first == second,
{
}

/// With every file present, the first piece that does not hash to its
/// digest makes the release incomplete by one damaged file and no missing
/// one: the file that holds the first byte of that piece, whichever file of
/// the piece holds the damage.
pub proof fn lemma_verify_blames_piece_start(m: ManifestSpec, dir: Seq<Option<Seq<u8>>>, k: nat)
    requires
        m.files.len() >= 1,
        dir.len() == m.files.len(),
        forall|i: int| 0 <= i < dir.len() ==> dir[i] is Some,
        k < m.piece_hashes.len(),
        forall|j: nat| j < k ==> m.piece_matches(dir, j),
        !m.piece_matches(dir, k),
    ensures
        verify_outcome(m, dir) == mismatch_outcome(m, k),
        m.piece_start(k) < m.total() ==> m.holds_position(m.accused(k), m.piece_start(k)),
{
    lemma_flagged_count(m.files, absent_flags(dir), FindingKind::Missing, m.files.len());
    lemma_first_mismatch(m, dir, 0, k);
    if m.piece_start(k) < m.total() {
        lemma_position_held(m, m.piece_start(k), m.files.len());
    }
}

/// Every position of the stream is held by a file.
pub proof fn lemma_position_held(m: ManifestSpec, p: nat, n: nat)
    requires
        n <= m.files.len(),
        p < m.prefix(n),
    ensures
        exists|i: nat| i < n && m.holds_position(i, p),
    decreases n,
{
    if p < m.prefix((n - 1) as nat) {
        lemma_position_held(m, p, (n - 1) as nat);
        let i = choose|i: nat| i < n - 1 && m.holds_position(i, p);
        assert(i < n && m.holds_position(i, p));
    } else {
        assert(m.holds_position((n - 1) as nat, p));
    }
}

/// The pieces begin in the order of their numbers.
pub proof fn lemma_piece_start_monotone(m: ManifestSpec, j: nat, k: nat)
    requires
        j <= k,
    ensures
        m.piece_start(j) <= m.piece_start(k) <= m.total(),
{
    assert(j * m.piece_length <= k * m.piece_length) by (nonlinear_arith)
        requires
            j <= k,
    ;
}

/// Two directories that hold the same but for one byte of one file give
/// streams that differ at most where that byte stands.
pub proof fn lemma_stream_agrees(
    m: ManifestSpec,
    good: Seq<Option<Seq<u8>>>,
    bad: Seq<Option<Seq<u8>>>,
    file: nat,
    offset: nat,
    x: nat,
)
    requires
        file < m.files.len(),
        forall|i: int| 0 <= i < m.files.len() && i != file ==> bad[i] == good[i],
        forall|o: int|
            0 <= o < m.files[file as int].length && o != offset ==> window(
                m.files[file as int],
                bad[file as int],
            )[o] == window(m.files[file as int], good[file as int])[o],
        x < m.total(),
        x != m.prefix(file) + offset,
    ensures
        m.full_stream(bad).len() == m.total(),
        m.full_stream(good).len() == m.total(),
        m.full_stream(bad)[x as int] == m.full_stream(good)[x as int],
{
    lemma_stream_len(m, bad, m.files.len());
    lemma_stream_len(m, good, m.files.len());
    lemma_position_held(m, x, m.files.len());
    let i = choose|i: nat| i < m.files.len() && m.holds_position(i, x);
    let o = (x - m.prefix(i)) as nat;
    lemma_stream_index(m, bad, m.files.len(), i, o);
    lemma_stream_index(m, good, m.files.len(), i, o);
}

/// One damaged byte, in a directory that is faithful but for it, makes the
/// release incomplete by one damaged file, provided that SHA-1 tells the
/// damaged piece from the faithful one. The file reported is the one that
/// holds the first byte of the piece in which the damaged byte lies, also
/// where the damaged byte lies in a later file of that piece.
pub proof fn lemma_single_damage(
    m: ManifestSpec,
    good: Seq<Option<Seq<u8>>>,
    bad: Seq<Option<Seq<u8>>>,
    file: nat,
    offset: nat,
    k: nat,
)
    requires
        good.len() == m.files.len(),
        bad.len() == m.files.len(),
        forall|i: int| 0 <= i < m.files.len() ==> good[i] is Some && bad[i] is Some,
        forall|j: nat| j < m.piece_hashes.len() ==> m.piece_matches(good, j),
        file < m.files.len(),
        offset < m.files[file as int].length,
        forall|i: int| 0 <= i < m.files.len() && i != file ==> bad[i] == good[i],
        forall|o: int|
            0 <= o < m.files[file as int].length && o != offset ==> window(
                m.files[file as int],
                bad[file as int],
            )[o] == window(m.files[file as int], good[file as int])[o],
        k < m.piece_hashes.len(),
        m.piece_start(k) <= m.prefix(file) + offset < m.piece_start(k + 1),
        sha1_of(m.piece(bad, k)) != sha1_of(m.piece(good, k)),
    ensures
        verify_outcome(m, bad) == mismatch_outcome(m, k),
        m.holds_position(m.accused(k), m.piece_start(k)),
{
    let damaged = m.prefix(file) + offset;
    lemma_piece_start_monotone(m, k, k + 1);
    assert forall|j: nat| j < k implies m.piece_matches(bad, j) by {
        lemma_piece_start_monotone(m, j, j + 1);
        lemma_piece_start_monotone(m, j + 1, k);
        let from = m.piece_start(j);
        let to = m.piece_start(j + 1);
        if from < to {
            lemma_stream_agrees(m, good, bad, file, offset, from);
        } else {
            lemma_stream_len(m, bad, m.files.len());
            lemma_stream_len(m, good, m.files.len());
        }
        assert forall|x: int| from <= x < to implies m.full_stream(bad)[x] == m.full_stream(
            good,
        )[x] by {
            lemma_stream_agrees(m, good, bad, file, offset, x as nat);
        }
        assert(m.piece(bad, j) =~= m.piece(good, j));
        assert(m.piece_matches(good, j));
    }
    assert(m.piece_matches(good, k));
    lemma_verify_blames_piece_start(m, bad, k);
}

/// The same, stated over the stream: a directory with every file present,
/// whose stream differs from a faithful one in the one byte at position `x`,
/// makes the release incomplete by the file that holds the first byte of the
/// piece in which `x` lies, the piece `x / piece_length`, provided that SHA-1
/// tells the damaged piece from the faithful one.
pub proof fn lemma_damage_at(
    m: ManifestSpec,
    good: Seq<Option<Seq<u8>>>,
    bad: Seq<Option<Seq<u8>>>,
    x: nat,
)
    requires
        m.wf(),
        good.len() == m.files.len(),
        bad.len() == m.files.len(),
        forall|i: int| 0 <= i < m.files.len() ==> good[i] is Some && bad[i] is Some,
        forall|j: nat| j < m.piece_hashes.len() ==> m.piece_matches(good, j),
        x < m.total(),
        forall|y: int|
            0 <= y < m.total() && y != x ==> m.full_stream(bad)[y] == m.full_stream(good)[y],
        sha1_of(m.piece(bad, x / m.piece_length)) != sha1_of(m.piece(good, x / m.piece_length)),
    ensures
        x / m.piece_length < m.piece_hashes.len(),
        verify_outcome(m, bad) == mismatch_outcome(m, x / m.piece_length),
        m.holds_position(
            m.accused(x / m.piece_length),
            (x / m.piece_length) * m.piece_length,
        ),
{
    let unit = m.piece_length;
    let k = x / unit;
    let count = m.piece_hashes.len();
    assert(k * unit <= x && k < count) by (nonlinear_arith)
        requires
            k == x / unit,
            unit >= 1,
            x < count * unit,
    ;
    lemma_stream_len(m, bad, m.files.len());
    lemma_stream_len(m, good, m.files.len());
    assert forall|j: nat| j < k implies m.piece_matches(bad, j) by {
        lemma_piece_start_monotone(m, j, j + 1);
        lemma_piece_start_monotone(m, j + 1, k);
        assert(m.piece(bad, j) =~= m.piece(good, j));
        assert(m.piece_matches(good, j));
    }
    assert(m.piece_matches(good, k));
    lemma_verify_blames_piece_start(m, bad, k);
}

/// The first mismatch from `from` on is a piece that does not hash to its
/// digest, behind pieces that do; where there is none, every piece from
/// `from` on hashes to its digest.
pub proof fn lemma_first_mismatch_is_first(m: ManifestSpec, dir: Seq<Option<Seq<u8>>>, from: nat)
    ensures
        match m.first_mismatch(dir, from) {
            Some(k) => from <= k < m.piece_hashes.len() && !m.piece_matches(dir, k) && forall|
                j: nat,
            |
                from <= j < k ==> m.piece_matches(dir, j),
            None => forall|j: nat| from <= j < m.piece_hashes.len() ==> m.piece_matches(dir, j),
        },
    decreases m.piece_hashes.len() - from,
{
    if from < m.piece_hashes.len() && m.piece_matches(dir, from) {
        lemma_first_mismatch_is_first(m, dir, from + 1);
    }
}

/// Where the first `n` pieces hash to their digests, no mismatch is laid to
/// any file.
pub proof fn lemma_blamed_none(m: ManifestSpec, dir: Seq<Option<Seq<u8>>>, n: nat)
    requires
        n <= m.piece_hashes.len(),
        forall|j: nat| j < n ==> m.piece_matches(dir, j),
    ensures
        m.blamed(dir, n).len() == 0,
    decreases n,
{
    if n > 0 {
        lemma_blamed_none(m, dir, (n - 1) as nat);
    }
}

/// Where piece `k` is the first that does not hash to its digest, the file
/// that its mismatch is laid to is the first of the files that mismatches
/// are laid to.
pub proof fn lemma_blamed_first(m: ManifestSpec, dir: Seq<Option<Seq<u8>>>, n: nat, k: nat)
    requires
        k < n <= m.piece_hashes.len(),
        forall|j: nat| j < k ==> m.piece_matches(dir, j),
        !m.piece_matches(dir, k),
    ensures
        m.blamed(dir, n).len() > 0,
        m.blamed(dir, n)[0] == m.accused(k),
    decreases n,
{
    if n == k + 1 {
        lemma_blamed_none(m, dir, k);
    } else {
        lemma_blamed_first(m, dir, (n - 1) as nat, k);
    }
}

/// A verification that hashes every piece and one that ends at the first
/// mismatch agree on whether the release is verified, and the one file that
/// the latter reports damaged is the first that the former reports.
pub proof fn lemma_modes_agree(m: ManifestSpec, dir: Seq<Option<Seq<u8>>>)
    ensures
        verify_outcome(m, dir) == OutcomeSpec::Verified <==> exhaustive_outcome(m, dir)
            == OutcomeSpec::Verified,
        presence_verdict(m, absent_flags(dir)) is Some ==> exhaustive_outcome(m, dir)
            == verify_outcome(m, dir),
        presence_verdict(m, absent_flags(dir)) is None ==> (verify_outcome(m, dir)
            matches OutcomeSpec::Incomplete(_, one) ==> exhaustive_outcome(m, dir)
            matches OutcomeSpec::Incomplete(lacking, all) && lacking.len() == 0 && all.len() > 0
            && all[0] == one[0]),
{
    if presence_verdict(m, absent_flags(dir)) is None {
        lemma_first_mismatch_is_first(m, dir, 0);
        match m.first_mismatch(dir, 0) {
            Some(k) => {
                lemma_blamed_first(m, dir, m.piece_hashes.len(), k);
            },
            None => {
                lemma_blamed_none(m, dir, m.piece_hashes.len());
            },
        }
    }
}

} // verus!
