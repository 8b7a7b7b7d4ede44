//! The fast check of a release by presence and size, and the rule that
//! turns its findings into an outcome.

use crate::manifest::Manifest;
use crate::manifest::ManifestSpec;
use crate::outcome::findings_view;
use crate::outcome::FileFinding;
use crate::outcome::FindingKind;
use crate::outcome::FindingSpec;
use crate::outcome::OutcomeSpec;
use crate::outcome::VerificationOutcome;
use crate::path::file_name;
use crate::path::path_view;
use crate::run::VerificationError;
use crate::scan::flagged;
use vstd::prelude::*;
use vstd::string::StringExecFns;

verus! {

/// A finding is trivial where the name of its file is on the list of
/// disposable names.
pub open spec fn trivial(finding: FindingSpec, disposable: Seq<Seq<char>>) -> bool {
    match file_name(finding.path) {
        Some(name) => disposable.contains(name),
        None => false,
    }
}

/// Whether every finding of a list is trivial.
pub open spec fn all_trivial(findings: Seq<FindingSpec>, disposable: Seq<Seq<char>>) -> bool {
    forall|i: int| 0 <= i < findings.len() ==> trivial(#[trigger] findings[i], disposable)
}

/// The outcome of a fast check of `file_count` files with the given missing
/// and size-mismatched files. With every file missing the release is
/// missing. Else it is complete where there are no findings or only
/// trivial ones, and incomplete by its findings otherwise.
pub open spec fn classification(
    file_count: nat,
    missing: Seq<FindingSpec>,
    mismatched: Seq<FindingSpec>,
    disposable: Seq<Seq<char>>,
) -> OutcomeSpec {
    if missing.len() == file_count {
        OutcomeSpec::AllFilesMissing
    } else if all_trivial(missing, disposable) && all_trivial(mismatched, disposable) {
        OutcomeSpec::Complete
    } else {
        OutcomeSpec::Incomplete(missing, mismatched)
    }
}

/// Of each file, whether the directory lacks it.
pub open spec fn absent_sizes(sizes: Seq<Option<u64>>) -> Seq<bool> {
    Seq::new(sizes.len(), |i: int| sizes[i] is None)
}

/// Of each file, whether the directory holds it with another size than the
/// manifest gives.
pub open spec fn size_differs(m: ManifestSpec, sizes: Seq<Option<u64>>) -> Seq<bool> {
    Seq::new(
        sizes.len(),
        |i: int|
            match sizes[i] {
                Some(size) => i < m.files.len() && size != m.files[i].length,
                None => false,
            },
    )
}

/// The outcome of a fast check of a directory in which file `i` has the
/// size `sizes[i]`, or is absent where that is `None`.
pub open spec fn check_outcome(
    m: ManifestSpec,
    sizes: Seq<Option<u64>>,
    disposable: Seq<Seq<char>>,
) -> OutcomeSpec {
    classification(
        m.files.len(),
        flagged(m.files, absent_sizes(sizes), FindingKind::Missing, m.files.len()),
        flagged(m.files, size_differs(m, sizes), FindingKind::SizeMismatch, m.files.len()),
        disposable,
    )
}

/// The names of files that a release may lack and still be complete, unless
/// the caller says otherwise: the thumbnail cache that a desktop leaves.
pub fn default_disposable() -> (names: Vec<String>)
    ensures
        path_view(names@) == seq!["Thumbs.db"@],
{
    let mut names: Vec<String> = Vec::new();
    names.push(String::from_str("Thumbs.db"));
    assert(path_view(names@) =~= seq!["Thumbs.db"@]);
    names
}

/// Whether `name` is on the list of disposable names.
pub fn is_disposable(name: &String, disposable: &Vec<String>) -> (listed: bool)
    ensures
        listed == path_view(disposable@).contains(name@),
{
    let mut i: usize = 0;
    while i < disposable.len()
        invariant
            i <= disposable.len(),
            forall|j: int| 0 <= j < i ==> path_view(disposable@)[j] != name@,
        decreases disposable.len() - i,
    {
        if disposable[i] == *name {
            assert(path_view(disposable@)[i as int] == name@);
            return true;
        }
        i += 1;
    }
    false
}

/// Whether a finding is trivial.
pub fn is_trivial(finding: &FileFinding, disposable: &Vec<String>) -> (yes: bool)
    ensures
        yes == trivial(finding@, path_view(disposable@)),
{
    let parts: usize = finding.relative_path.len();
    if parts == 0 {
        false
    } else {
        assert(path_view(finding.relative_path@).last() == finding.relative_path@[parts - 1]@);
        is_disposable(&finding.relative_path[parts - 1], disposable)
    }
}

/// Whether every finding of a list is trivial.
pub fn are_trivial(findings: &Vec<FileFinding>, disposable: &Vec<String>) -> (yes: bool)
    ensures
        yes == all_trivial(findings_view(findings@), path_view(disposable@)),
{
    let mut i: usize = 0;
    while i < findings.len()
        invariant
            i <= findings.len(),
            forall|j: int|
                0 <= j < i ==> trivial(
                    #[trigger] findings_view(findings@)[j],
                    path_view(disposable@),
                ),
        decreases findings.len() - i,
    {
        if !is_trivial(&findings[i], disposable) {
            assert(!trivial(findings_view(findings@)[i as int], path_view(disposable@)));
            return false;
        }
        i += 1;
    }
    true
}

/// Turns the findings of a fast check into its outcome.
pub fn classify(
    file_count: usize,
    missing: Vec<FileFinding>,
    mismatched: Vec<FileFinding>,
    disposable: &Vec<String>,
) -> (outcome: VerificationOutcome)
    ensures
        outcome@ == classification(
            file_count as nat,
            findings_view(missing@),
            findings_view(mismatched@),
            path_view(disposable@),
        ),
{
    if missing.len() == file_count {
        VerificationOutcome::AllFilesMissing
    } else if are_trivial(&missing, disposable) && are_trivial(&mismatched, disposable) {
        VerificationOutcome::Complete
    } else {
        VerificationOutcome::Incomplete(missing, mismatched)
    }
}

/// Of each file, whether the directory lacks it.
pub fn absent_by_size(sizes: &Vec<Option<u64>>) -> (absent: Vec<bool>)
    ensures
        absent@ == absent_sizes(sizes@),
{
    let mut absent: Vec<bool> = Vec::new();
    let mut i: usize = 0;
    while i < sizes.len()
        invariant
            i <= sizes.len(),
            absent@.len() == i,
            forall|j: int| 0 <= j < i ==> absent@[j] == (sizes@[j] is None),
        decreases sizes.len() - i,
    {
        absent.push(sizes[i].is_none());
        i += 1;
    }
    assert(absent@ =~= absent_sizes(sizes@));
    absent
}

/// Checks a release by presence and size alone. `sizes` holds for each file
/// of the manifest the size that the directory has it with, or `None` where
/// it is absent.
pub fn check(manifest: &Manifest, sizes: &Vec<Option<u64>>, disposable: &Vec<String>) -> (checked:
    Result<VerificationOutcome, VerificationError>)
    ensures
        sizes.len() != manifest.files.len() ==> checked == Err::<VerificationOutcome, _>(
            VerificationError::WrongFileCount,
        ),
        sizes.len() == manifest.files.len() ==> (checked matches Ok(outcome) && outcome@
            == check_outcome(manifest@, sizes@, path_view(disposable@))),
{
    if sizes.len() != manifest.files.len() {
        return Err(VerificationError::WrongFileCount);
    }
    let absent = absent_by_size(sizes);
    let mut differs: Vec<bool> = Vec::new();
    let mut i: usize = 0;
    while i < sizes.len()
        invariant
            i <= sizes.len(),
            sizes.len() == manifest.files.len(),
            differs@.len() == i,
            forall|j: int| 0 <= j < i ==> differs@[j] == size_differs(manifest@, sizes@)[j],
        decreases sizes.len() - i,
    {
        let flag: bool = match sizes[i] {
            Some(size) => size != manifest.files[i].length,
            None => false,
        };
        assert(manifest@.files[i as int].length == manifest.files@[i as int].length);
        differs.push(flag);
        i += 1;
    }
    assert(differs@ =~= size_differs(manifest@, sizes@));
    let missing = manifest.collect_flagged(&absent, FindingKind::Missing);
    let mismatched = manifest.collect_flagged(&differs, FindingKind::SizeMismatch);
    assert(findings_view(missing@).len() == missing@.len());
    Ok(classify(manifest.files.len(), missing, mismatched, disposable))
}

} // verus!
