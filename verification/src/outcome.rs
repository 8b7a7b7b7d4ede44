//! Per-file findings and the release-level outcome of a verification run.

use crate::manifest::FileSpec;
use crate::manifest::ManifestFile;
use crate::path::clone_path;
use crate::path::path_view;
use vstd::prelude::*;
use vstd::string::StringExecFns;

verus! {

/// What was found wrong with a file.
#[derive(Debug, Clone, Copy, PartialEq, Eq, Structural)]
pub enum FindingKind {
    /// The file is absent.
    Missing,
    /// The file is present but its size differs from the manifest's.
    SizeMismatch,
    /// A piece that begins in the file does not hash to its digest.
    ContentMismatch,
}

/// A file of the manifest together with what was found wrong with it.
#[derive(Debug, Clone)]
pub struct FileFinding {
    pub relative_path: Vec<String>,
    pub length: u64,
    pub kind: FindingKind,
}

/// The mathematical value of a [`FileFinding`].
pub struct FindingSpec {
    pub path: Seq<Seq<char>>,
    pub length: nat,
    pub kind: FindingKind,
}

impl View for FileFinding {
    type V = FindingSpec;

    open spec fn view(&self) -> FindingSpec {
        FindingSpec {
            path: path_view(self.relative_path@),
            length: self.length as nat,
            kind: self.kind,
        }
    }
}

/// The finding of the given kind about a file.
pub open spec fn finding_about(file: FileSpec, kind: FindingKind) -> FindingSpec {
    FindingSpec { path: file.path, length: file.length, kind }
}

/// The values of a list of findings.
pub open spec fn findings_view(findings: Seq<FileFinding>) -> Seq<FindingSpec> {
    Seq::new(findings.len(), |i: int| findings[i]@)
}

impl FileFinding {
    /// The finding of the given kind about `file`.
    pub fn about(file: &ManifestFile, kind: FindingKind) -> (finding: FileFinding)
        ensures
            finding@ == finding_about(file@, kind),
    {
        FileFinding { relative_path: clone_path(&file.relative_path), length: file.length, kind }
    }
}

/// The release-level result of one verification run.
#[derive(Debug, Clone)]
pub enum VerificationOutcome {
    /// All files are present with matching sizes; no piece was hashed.
    Complete,
    /// Every file is present and every piece hashed to its digest.
    Verified,
    /// No manifest could be obtained for the release.
    ManifestUnavailable,
    /// Some files are missing (first list) or damaged (second list).
    Incomplete(Vec<FileFinding>, Vec<FileFinding>),
    /// Every file of the manifest is absent.
    AllFilesMissing,
}

/// The mathematical value of a [`VerificationOutcome`].
pub enum OutcomeSpec {
    Complete,
    Verified,
    ManifestUnavailable,
    Incomplete(Seq<FindingSpec>, Seq<FindingSpec>),
    AllFilesMissing,
}

impl View for VerificationOutcome {
    type V = OutcomeSpec;

    open spec fn view(&self) -> OutcomeSpec {
        match self {
            VerificationOutcome::Complete => OutcomeSpec::Complete,
            VerificationOutcome::Verified => OutcomeSpec::Verified,
            VerificationOutcome::ManifestUnavailable => OutcomeSpec::ManifestUnavailable,
            VerificationOutcome::Incomplete(missing, damaged) => OutcomeSpec::Incomplete(
                findings_view(missing@),
                findings_view(damaged@),
            ),
            VerificationOutcome::AllFilesMissing => OutcomeSpec::AllFilesMissing,
        }
    }
}

/// The status of a release: `None` while it is unknown.
pub open spec fn status_view(status: Option<VerificationOutcome>) -> Option<OutcomeSpec> {
    match status {
        Some(outcome) => Some(outcome@),
        None => None,
    }
}

/// The tag under which a status is stored.
pub open spec fn label_of(status: Option<OutcomeSpec>) -> Seq<char> {
    match status {
        Some(OutcomeSpec::Complete) => "COMPLETE"@,
        Some(OutcomeSpec::Verified) => "VERIFIED"@,
        Some(OutcomeSpec::ManifestUnavailable) => "NO TORRENT"@,
        Some(OutcomeSpec::Incomplete(_, _)) => "INCOMPLETE"@,
        Some(OutcomeSpec::AllFilesMissing) => "MISSING"@,
        None => "UNKNOWN"@,
    }
}

/// The status that a stored tag and the stored findings stand for. A tag
/// that is not known stands for the unknown status.
pub open spec fn status_of(
    label: Seq<char>,
    missing: Seq<FindingSpec>,
    damaged: Seq<FindingSpec>,
) -> Option<OutcomeSpec> {
    if label == "COMPLETE"@ {
        Some(OutcomeSpec::Complete)
    } else if label == "VERIFIED"@ {
        Some(OutcomeSpec::Verified)
    } else if label == "NO TORRENT"@ {
        Some(OutcomeSpec::ManifestUnavailable)
    } else if label == "MISSING"@ {
        Some(OutcomeSpec::AllFilesMissing)
    } else if label == "INCOMPLETE"@ {
        Some(OutcomeSpec::Incomplete(missing, damaged))
    } else {
        None
    }
}

/// The findings that are stored beside a status.
pub open spec fn stored_missing(status: Option<OutcomeSpec>) -> Seq<FindingSpec> {
    match status {
        Some(OutcomeSpec::Incomplete(missing, _)) => missing,
        _ => Seq::empty(),
    }
}

/// The damaged files that are stored beside a status.
pub open spec fn stored_damaged(status: Option<OutcomeSpec>) -> Seq<FindingSpec> {
    match status {
        Some(OutcomeSpec::Incomplete(_, damaged)) => damaged,
        _ => Seq::empty(),
    }
}

/// The six tags differ from one another.
pub proof fn lemma_labels_distinct()
    ensures
        "COMPLETE"@.len() == 8,
        "VERIFIED"@.len() == 8,
        "NO TORRENT"@.len() == 10,
        "INCOMPLETE"@.len() == 10,
        "MISSING"@.len() == 7,
        "UNKNOWN"@.len() == 7,
        "COMPLETE"@[0] == 'C',
        "VERIFIED"@[0] == 'V',
        "NO TORRENT"@[0] == 'N',
        "INCOMPLETE"@[0] == 'I',
        "MISSING"@[0] == 'M',
        "UNKNOWN"@[0] == 'U',
{
    reveal_strlit("COMPLETE");
    reveal_strlit("VERIFIED");
    reveal_strlit("NO TORRENT");
    reveal_strlit("INCOMPLETE");
    reveal_strlit("MISSING");
    reveal_strlit("UNKNOWN");
}

/// A status stored as its tag and its findings is read back unchanged.
pub proof fn lemma_status_round_trip(status: Option<OutcomeSpec>)
    ensures
        status_of(label_of(status), stored_missing(status), stored_damaged(status)) == status,
{
    lemma_labels_distinct();
}

impl VerificationOutcome {
    /// The tag under which this outcome is stored.
    pub fn label(&self) -> (tag: String)
        ensures
            tag@ == label_of(Some(self@)),
    {
        match self {
            VerificationOutcome::Complete => String::from_str("COMPLETE"),
            VerificationOutcome::Verified => String::from_str("VERIFIED"),
            VerificationOutcome::ManifestUnavailable => String::from_str("NO TORRENT"),
            VerificationOutcome::Incomplete(_, _) => String::from_str("INCOMPLETE"),
            VerificationOutcome::AllFilesMissing => String::from_str("MISSING"),
        }
    }

    /// The status that a stored tag and the stored findings stand for.
    pub fn from_label(label: &String, missing: Vec<FileFinding>, damaged: Vec<FileFinding>) -> (status:
        Option<VerificationOutcome>)
        ensures
            status_view(status) == status_of(
                label@,
                findings_view(missing@),
                findings_view(damaged@),
            ),
    {
        if *label == String::from_str("COMPLETE") {
            Some(VerificationOutcome::Complete)
        } else if *label == String::from_str("VERIFIED") {
            Some(VerificationOutcome::Verified)
        } else if *label == String::from_str("NO TORRENT") {
            Some(VerificationOutcome::ManifestUnavailable)
        } else if *label == String::from_str("MISSING") {
            Some(VerificationOutcome::AllFilesMissing)
        } else if *label == String::from_str("INCOMPLETE") {
            Some(VerificationOutcome::Incomplete(missing, damaged))
        } else {
            None
        }
    }
}

/// The tag under which a status is stored: that of the outcome, or
/// `UNKNOWN` while there is none.
pub fn status_label(status: &Option<VerificationOutcome>) -> (tag: String)
    ensures
        tag@ == label_of(status_view(*status)),
{
    match status {
        Some(outcome) => outcome.label(),
        None => String::from_str("UNKNOWN"),
    }
}

} // verus!
