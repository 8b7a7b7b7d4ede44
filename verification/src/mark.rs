//! Marking a release incomplete by hand, from lists of paths.

use crate::manifest::FileSpec;
use crate::manifest::Manifest;
use crate::manifest::ManifestSpec;
use crate::outcome::finding_about;
use crate::outcome::findings_view;
use crate::outcome::FileFinding;
use crate::outcome::FindingKind;
use crate::outcome::FindingSpec;
use crate::outcome::OutcomeSpec;
use crate::outcome::VerificationOutcome;
use crate::path::clone_path;
use crate::path::path_view;
use crate::path::paths_equal;
use vstd::prelude::*;

verus! {

/// Why a release could not be marked.
#[derive(Debug)]
pub enum MarkError {
    /// Neither a missing nor a damaged file was named.
    NoFilesSupplied,
    /// The path is none of the manifest's.
    UnknownPathInManifest(Vec<String>),
}

/// The mathematical value of a [`MarkError`].
pub enum MarkErrorSpec {
    NoFilesSupplied,
    UnknownPathInManifest(Seq<Seq<char>>),
}

impl View for MarkError {
    type V = MarkErrorSpec;

    open spec fn view(&self) -> MarkErrorSpec {
        match self {
            MarkError::NoFilesSupplied => MarkErrorSpec::NoFilesSupplied,
            MarkError::UnknownPathInManifest(path) => MarkErrorSpec::UnknownPathInManifest(
                path_view(path@),
            ),
        }
    }
}

/// The values of a list of paths.
pub open spec fn paths_view(paths: Seq<Vec<String>>) -> Seq<Seq<Seq<char>>> {
    Seq::new(paths.len(), |i: int| path_view(paths[i]@))
}

/// The first file from `from` on that has the given path.
pub open spec fn find_path(files: Seq<FileSpec>, path: Seq<Seq<char>>, from: nat) -> Option<nat>
    decreases files.len() - from,
{
    if from >= files.len() {
        None
    } else if files[from as int].path == path {
        Some(from)
    } else {
        find_path(files, path, from + 1)
    }
}

/// The findings of the given kind about the files that the first `n` paths
/// name, in the order of the paths, or the first path that names no file.
pub open spec fn resolve(
    files: Seq<FileSpec>,
    paths: Seq<Seq<Seq<char>>>,
    kind: FindingKind,
    n: nat,
) -> Result<Seq<FindingSpec>, Seq<Seq<char>>>
    decreases n,
{
    if n == 0 || n > paths.len() {
        Ok(Seq::empty())
    } else {
        match resolve(files, paths, kind, (n - 1) as nat) {
            Err(unknown) => Err(unknown),
            Ok(before) => match find_path(files, paths[n - 1], 0) {
                Some(index) => Ok(before.push(finding_about(files[index as int], kind))),
                None => Err(paths[n - 1]),
            },
        }
    }
}

/// What marking a release incomplete gives. With no path at all it is
/// refused; so it is with a path that is none of the manifest's, the missing
/// ones looked at first. Else the release is incomplete by the files named.
pub open spec fn marking(
    m: ManifestSpec,
    missing: Seq<Seq<Seq<char>>>,
    damaged: Seq<Seq<Seq<char>>>,
) -> Result<OutcomeSpec, MarkErrorSpec> {
    if missing.len() == 0 && damaged.len() == 0 {
        Err(MarkErrorSpec::NoFilesSupplied)
    } else {
        match resolve(m.files, missing, FindingKind::Missing, missing.len()) {
            Err(unknown) => Err(MarkErrorSpec::UnknownPathInManifest(unknown)),
            Ok(lacking) => match resolve(
                m.files,
                damaged,
                FindingKind::ContentMismatch,
                damaged.len(),
            ) {
                Err(unknown) => Err(MarkErrorSpec::UnknownPathInManifest(unknown)),
                Ok(broken) => Ok(OutcomeSpec::Incomplete(lacking, broken)),
            },
        }
    }
}

/// A list with a path that names no file is not resolved.
pub proof fn lemma_resolve_refuses(
    files: Seq<FileSpec>,
    paths: Seq<Seq<Seq<char>>>,
    kind: FindingKind,
    n: nat,
    i: int,
)
    requires
        0 <= i < n <= paths.len(),
        find_path(files, paths[i], 0) is None,
    ensures
        resolve(files, paths, kind, n) is Err,
    decreases n,
{
    if i < n - 1 {
        lemma_resolve_refuses(files, paths, kind, (n - 1) as nat, i);
    }
}

/// Once a path names no file, the paths behind it do not change the refusal.
pub proof fn lemma_refusal_stays(
    files: Seq<FileSpec>,
    paths: Seq<Seq<Seq<char>>>,
    kind: FindingKind,
    n: nat,
    later: nat,
)
    requires
        n <= later <= paths.len(),
        resolve(files, paths, kind, n) is Err,
    ensures
        resolve(files, paths, kind, later) == resolve(files, paths, kind, n),
    decreases later,
{
    if n < later {
        lemma_refusal_stays(files, paths, kind, n, (later - 1) as nat);
    }
}

/// A path that is found names a file of the manifest with that path, and a
/// path that is not found is the path of no file.
pub proof fn lemma_find_path(files: Seq<FileSpec>, path: Seq<Seq<char>>, from: nat)
    ensures
        match find_path(files, path, from) {
            Some(index) => from <= index < files.len() && files[index as int].path == path,
            None => forall|i: int| from <= i < files.len() ==> files[i].path != path,
        },
    decreases files.len() - from,
{
    if from < files.len() && files[from as int].path != path {
        lemma_find_path(files, path, from + 1);
    }
}

/// Marking without any path is refused for want of files.
pub proof fn lemma_no_paths_refused(m: ManifestSpec)
    ensures
        marking(m, Seq::empty(), Seq::empty()) == Err::<OutcomeSpec, _>(
            MarkErrorSpec::NoFilesSupplied,
        ),
{
}

/// Marking with a path that is none of the manifest's is refused.
pub proof fn lemma_unknown_path_refused(
    m: ManifestSpec,
    missing: Seq<Seq<Seq<char>>>,
    damaged: Seq<Seq<Seq<char>>>,
    path: Seq<Seq<char>>,
)
    requires
        missing.contains(path) || damaged.contains(path),
        forall|i: int| 0 <= i < m.files.len() ==> m.files[i].path != path,
    ensures
        marking(m, missing, damaged) is Err,
{
    lemma_find_path(m.files, path, 0);
    if missing.contains(path) {
        let i = choose|i: int| 0 <= i < missing.len() && missing[i] == path;
        lemma_resolve_refuses(m.files, missing, FindingKind::Missing, missing.len(), i);
    } else {
        let i = choose|i: int| 0 <= i < damaged.len() && damaged[i] == path;
        lemma_resolve_refuses(m.files, damaged, FindingKind::ContentMismatch, damaged.len(), i);
    }
}

impl Manifest {
    /// The first file that has the given path.
    pub fn find_file(&self, path: &Vec<String>) -> (found: Option<usize>)
        ensures
            match found {
                Some(index) => find_path(self@.files, path_view(path@), 0) == Some(index as nat),
                None => find_path(self@.files, path_view(path@), 0) is None,
            },
            found matches Some(index) ==> index < self.files.len(),
    {
        let mut i: usize = 0;
        while i < self.files.len()
            invariant
                i <= self.files.len(),
                find_path(self@.files, path_view(path@), 0) == find_path(
                    self@.files,
                    path_view(path@),
                    i as nat,
                ),
            decreases self.files.len() - i,
        {
            assert(self@.files[i as int].path == path_view(self.files@[i as int].relative_path@));
            if paths_equal(&self.files[i].relative_path, path) {
                return Some(i);
            }
            i += 1;
        }
        None
    }

    /// The findings of the given kind about the files that the paths name.
    pub fn resolve_paths(&self, paths: &Vec<Vec<String>>, kind: FindingKind) -> (resolved: Result<
        Vec<FileFinding>,
        MarkError,
    >)
        ensures
            match resolve(self@.files, paths_view(paths@), kind, paths.len() as nat) {
                Ok(findings) => resolved matches Ok(found) && findings_view(found@) == findings,
                Err(unknown) => resolved matches Err(error) && error@
                    == MarkErrorSpec::UnknownPathInManifest(unknown),
            },
    {
        let mut found: Vec<FileFinding> = Vec::new();
        let mut i: usize = 0;
        while i < paths.len()
            invariant
                i <= paths.len(),
                resolve(self@.files, paths_view(paths@), kind, i as nat) matches Ok(findings)
                    && findings =~= findings_view(found@),
            decreases paths.len() - i,
        {
            let ghost before = found@;
            assert(paths_view(paths@)[i as int] == path_view(paths@[i as int]@));
            match self.find_file(&paths[i]) {
                Some(index) => {
                    let finding = FileFinding::about(&self.files[index], kind);
                    found.push(finding);
                    assert(findings_view(found@) =~= findings_view(before).push(finding@));
                },
                None => {
                    proof {
                        lemma_refusal_stays(
                            self@.files,
                            paths_view(paths@),
                            kind,
                            (i + 1) as nat,
                            paths.len() as nat,
                        );
                    }
                    return Err(MarkError::UnknownPathInManifest(clone_path(&paths[i])));
                },
            }
            i += 1;
        }
        Ok(found)
    }
}

/// The outcome of marking a release incomplete by the files that the two
/// lists of paths name.
pub fn mark_incomplete(
    manifest: &Manifest,
    missing_paths: &Vec<Vec<String>>,
    corrupt_paths: &Vec<Vec<String>>,
) -> (marked: Result<VerificationOutcome, MarkError>)
    ensures
        match marking(manifest@, paths_view(missing_paths@), paths_view(corrupt_paths@)) {
            Ok(outcome) => marked matches Ok(made) && made@ == outcome,
            Err(refusal) => marked matches Err(error) && error@ == refusal,
        },
{
    if missing_paths.len() == 0 && corrupt_paths.len() == 0 {
        return Err(MarkError::NoFilesSupplied);
    }
    let lacking = match manifest.resolve_paths(missing_paths, FindingKind::Missing) {
        Ok(found) => found,
        Err(error) => {
            return Err(error);
        },
    };
    let broken = match manifest.resolve_paths(corrupt_paths, FindingKind::ContentMismatch) {
        Ok(found) => found,
        Err(error) => {
            return Err(error);
        },
    };
    Ok(VerificationOutcome::Incomplete(lacking, broken))
}

/// The outcome of marking a release missing: every file is.
pub fn mark_missing() -> (marked: VerificationOutcome)
    ensures
        marked@ == OutcomeSpec::AllFilesMissing,
{
    VerificationOutcome::AllFilesMissing
}

} // verus!
