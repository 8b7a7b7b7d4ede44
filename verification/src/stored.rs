//! Findings as they are stored: a path, a tag and a size to a row.

use crate::outcome::findings_view;
use crate::outcome::FileFinding;
use crate::outcome::FindingKind;
use crate::outcome::FindingSpec;
use crate::path::path_view;
use vstd::prelude::*;
use vstd::string::StringExecFns;

verus! {

/// One stored row about a file of a release.
#[derive(Debug)]
pub struct StoredFinding {
    pub relative_path: Vec<String>,
    pub status: String,
    pub size: u64,
}

/// The tag under which a finding of the given kind is stored.
pub open spec fn tag_of(kind: FindingKind) -> Seq<char> {
    match kind {
        FindingKind::Missing => "MISSING"@,
        FindingKind::SizeMismatch => "SIZE MISMATCH"@,
        FindingKind::ContentMismatch => "CORRUPTED"@,
    }
}

/// The kind that a stored tag stands for, if it stands for one.
pub open spec fn kind_of(tag: Seq<char>) -> Option<FindingKind> {
    if tag == "MISSING"@ {
        Some(FindingKind::Missing)
    } else if tag == "SIZE MISMATCH"@ {
        Some(FindingKind::SizeMismatch)
    } else if tag == "CORRUPTED"@ {
        Some(FindingKind::ContentMismatch)
    } else {
        None
    }
}

/// The finding that a stored row stands for, if its tag is known.
pub open spec fn row_finding(row: StoredFinding) -> Option<FindingSpec> {
    match kind_of(row.status@) {
        Some(kind) => Some(
            FindingSpec { path: path_view(row.relative_path@), length: row.size as nat, kind },
        ),
        None => None,
    }
}

/// The findings that the first `n` rows stand for, in the order of the rows:
/// those about missing files where `missing` is set, those about damaged
/// files where it is not. A row with a tag that is not known stands for none.
pub open spec fn rows_findings(rows: Seq<StoredFinding>, missing: bool, n: nat) -> Seq<FindingSpec>
    decreases n,
{
    if n == 0 || n > rows.len() {
        Seq::empty()
    } else {
        let before = rows_findings(rows, missing, (n - 1) as nat);
        match row_finding(rows[n - 1]) {
            Some(finding) => if (finding.kind == FindingKind::Missing) == missing {
                before.push(finding)
            } else {
                before
            },
            None => before,
        }
    }
}

/// The three tags differ from one another.
pub proof fn lemma_tags_distinct()
    ensures
        "MISSING"@.len() == 7,
        "SIZE MISMATCH"@.len() == 13,
        "CORRUPTED"@.len() == 9,
{
    reveal_strlit("MISSING");
    reveal_strlit("SIZE MISMATCH");
    reveal_strlit("CORRUPTED");
}

/// The kind of a finding that is stored under its tag is read back
/// unchanged.
pub proof fn lemma_kind_round_trip(kind: FindingKind)
    ensures
        kind_of(tag_of(kind)) == Some(kind),
{
    lemma_tags_distinct();
}

impl FindingKind {
    /// The tag under which a finding of this kind is stored.
    pub fn tag(&self) -> (tag: String)
        ensures
            tag@ == tag_of(*self),
    {
        match self {
            FindingKind::Missing => String::from_str("MISSING"),
            FindingKind::SizeMismatch => String::from_str("SIZE MISMATCH"),
            FindingKind::ContentMismatch => String::from_str("CORRUPTED"),
        }
    }

    /// The kind that a stored tag stands for, if it stands for one.
    pub fn from_tag(tag: &String) -> (kind: Option<FindingKind>)
        ensures
            kind == kind_of(tag@),
    {
        if *tag == String::from_str("MISSING") {
            Some(FindingKind::Missing)
        } else if *tag == String::from_str("SIZE MISMATCH") {
            Some(FindingKind::SizeMismatch)
        } else if *tag == String::from_str("CORRUPTED") {
            Some(FindingKind::ContentMismatch)
        } else {
            None
        }
    }
}

/// Sorts stored rows into the findings about missing files and those about
/// damaged files, each in the order of the rows.
pub fn sort_rows(rows: Vec<StoredFinding>) -> (sorted: (Vec<FileFinding>, Vec<FileFinding>))
    ensures
        findings_view(sorted.0@) == rows_findings(rows@, true, rows@.len()),
        findings_view(sorted.1@) == rows_findings(rows@, false, rows@.len()),
{
    let ghost given = rows@;
    let count: usize = rows.len();
    let mut rows = rows;
    let mut reversed: Vec<StoredFinding> = Vec::new();
    while rows.len() > 0
        invariant
            given.len() == count,
            rows@.len() + reversed@.len() == given.len(),
            forall|j: int| 0 <= j < rows@.len() ==> rows@[j] == given[j],
            forall|j: int|
                0 <= j < reversed@.len() ==> reversed@[j] == given[given.len() - 1 - j],
        decreases rows.len(),
    {
        let row = rows.pop().unwrap();
        reversed.push(row);
    }
    let mut missing: Vec<FileFinding> = Vec::new();
    let mut damaged: Vec<FileFinding> = Vec::new();
    let mut i: usize = 0;
    while reversed.len() > 0
        invariant
            given.len() == count,
            i + reversed@.len() == given.len(),
            forall|j: int|
                0 <= j < reversed@.len() ==> reversed@[j] == given[given.len() - 1 - j],
            findings_view(missing@) =~= rows_findings(given, true, i as nat),
            findings_view(damaged@) =~= rows_findings(given, false, i as nat),
        decreases reversed.len(),
    {
        let ghost lacking = missing@;
        let ghost broken = damaged@;
        let row = reversed.pop().unwrap();
        assert(row == given[i as int]);
        let StoredFinding { relative_path, status, size } = row;
        match FindingKind::from_tag(&status) {
            Some(FindingKind::Missing) => {
                let finding = FileFinding { relative_path, length: size, kind: FindingKind::Missing };
                missing.push(finding);
                assert(findings_view(missing@) =~= findings_view(lacking).push(finding@));
            },
            Some(kind) => {
                let finding = FileFinding { relative_path, length: size, kind };
                damaged.push(finding);
                assert(findings_view(damaged@) =~= findings_view(broken).push(finding@));
            },
            None => {},
        }
        i += 1;
    }
    (missing, damaged)
}

} // verus!
