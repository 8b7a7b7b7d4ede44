//! What is reported of a release by its status: the bytes that are still
//! to be had, and the figures of a status report.

use crate::outcome::findings_view;
use crate::outcome::FileFinding;
use crate::outcome::FindingSpec;
use crate::outcome::OutcomeSpec;
use crate::outcome::VerificationOutcome;
use crate::release::Release;
use vstd::prelude::*;

verus! {

/// The lengths of the first `n` findings together.
pub open spec fn lengths_sum(findings: Seq<FindingSpec>, n: nat) -> nat
    decreases n,
{
    if n == 0 || n > findings.len() {
        0
    } else {
        lengths_sum(findings, (n - 1) as nat) + findings[n - 1].length
    }
}

/// A number of bytes as a `u64` holds it: itself, or the greatest `u64`
/// where it is greater.
pub open spec fn capped(bytes: nat) -> u64 {
    if bytes <= u64::MAX {
        bytes as u64
    } else {
        u64::MAX
    }
}

/// The bytes that a release of the given status and size lacks: all of a
/// missing release, the files found missing or damaged of an incomplete one,
/// none otherwise.
pub open spec fn outstanding(status: Option<OutcomeSpec>, size: Option<u64>) -> nat {
    match status {
        Some(OutcomeSpec::AllFilesMissing) => match size {
            Some(bytes) => bytes as nat,
            None => 0,
        },
        Some(OutcomeSpec::Incomplete(missing, damaged)) => lengths_sum(missing, missing.len())
            + lengths_sum(damaged, damaged.len()),
        _ => 0,
    }
}

/// The lengths of the files of a list of findings together, capped.
pub fn total_length(findings: &Vec<FileFinding>) -> (total: u64)
    ensures
        total == capped(lengths_sum(findings_view(findings@), findings@.len())),
{
    let mut total: u64 = 0;
    let mut i: usize = 0;
    while i < findings.len()
        invariant
            i <= findings.len(),
            total == capped(lengths_sum(findings_view(findings@), i as nat)),
        decreases findings.len() - i,
    {
        let length: u64 = findings[i].length;
        assert(findings_view(findings@)[i as int].length == length);
        if length > u64::MAX - total {
            total = u64::MAX;
        } else {
            total = total + length;
        }
        i += 1;
    }
    total
}

impl Release {
    /// The bytes that the release lacks by its status, capped.
    pub fn outstanding_bytes(&self) -> (bytes: u64)
        ensures
            bytes == capped(outstanding(self.status(), self.size)),
    {
        match &self.verification_outcome {
            Some(VerificationOutcome::AllFilesMissing) => match self.size {
                Some(bytes) => bytes,
                None => 0,
            },
            Some(VerificationOutcome::Incomplete(missing, damaged)) => {
                let lacking: u64 = total_length(missing);
                let broken: u64 = total_length(damaged);
                if broken > u64::MAX - lacking {
                    u64::MAX
                } else {
                    lacking + broken
                }
            },
            _ => 0,
        }
    }
}

/// Why the status of a release cannot be reported.
#[derive(Debug, Clone, Copy, PartialEq, Eq, Structural)]
pub enum ReportError {
    /// The release is verified, incomplete or missing, and the number of its
    /// files is not known.
    FileCountUnknown,
}

/// How many files a list of findings names and how long they are together.
#[derive(Debug, Clone, Copy, PartialEq, Eq, Structural)]
pub struct FindingsTotal {
    pub count: usize,
    pub size: u64,
}

/// The figures of a status report.
#[derive(Debug, Clone, Copy, PartialEq, Eq, Structural)]
pub enum StatusReport {
    /// The status is unknown.
    Unknown,
    /// No manifest could be had.
    ManifestUnavailable,
    /// All files are present in their sizes.
    Complete,
    /// All of so many files were verified.
    Verified { file_count: usize },
    /// All of so many files are missing.
    AllFilesMissing { file_count: usize },
    /// Of so many files some are missing or damaged. A list without
    /// findings has no total.
    Incomplete { file_count: usize, missing: Option<FindingsTotal>, damaged: Option<FindingsTotal> },
}

/// How many files a list of findings names and how long they are together,
/// capped; `None` for a list without findings.
pub open spec fn total_of(findings: Seq<FindingSpec>) -> Option<FindingsTotal> {
    if findings.len() == 0 {
        None
    } else {
        Some(
            FindingsTotal {
                count: findings.len() as usize,
                size: capped(lengths_sum(findings, findings.len())),
            },
        )
    }
}

/// The figures of the report on a release with the given status and number
/// of files. A verified, an incomplete and a missing release must have a
/// number of files.
pub open spec fn report_of(status: Option<OutcomeSpec>, file_count: Option<usize>) -> Result<
    StatusReport,
    ReportError,
> {
    match status {
        None => Ok(StatusReport::Unknown),
        Some(OutcomeSpec::ManifestUnavailable) => Ok(StatusReport::ManifestUnavailable),
        Some(OutcomeSpec::Complete) => Ok(StatusReport::Complete),
        Some(OutcomeSpec::Verified) => match file_count {
            Some(count) => Ok(StatusReport::Verified { file_count: count }),
            None => Err(ReportError::FileCountUnknown),
        },
        Some(OutcomeSpec::AllFilesMissing) => match file_count {
            Some(count) => Ok(StatusReport::AllFilesMissing { file_count: count }),
            None => Err(ReportError::FileCountUnknown),
        },
        Some(OutcomeSpec::Incomplete(missing, damaged)) => match file_count {
            Some(count) => Ok(
                StatusReport::Incomplete {
                    file_count: count,
                    missing: total_of(missing),
                    damaged: total_of(damaged),
                },
            ),
            None => Err(ReportError::FileCountUnknown),
        },
    }
}

/// How many files a list of findings names and how long they are together.
pub fn findings_total(findings: &Vec<FileFinding>) -> (total: Option<FindingsTotal>)
    ensures
        total == total_of(findings_view(findings@)),
{
    if findings.len() == 0 {
        None
    } else {
        Some(FindingsTotal { count: findings.len(), size: total_length(findings) })
    }
}

impl Release {
    /// The figures of the report on the status of the release.
    pub fn status_report(&self) -> (report: Result<StatusReport, ReportError>)
        ensures
            report == report_of(self.status(), self.file_count),
    {
        match &self.verification_outcome {
            None => Ok(StatusReport::Unknown),
            Some(VerificationOutcome::ManifestUnavailable) => Ok(StatusReport::ManifestUnavailable),
            Some(VerificationOutcome::Complete) => Ok(StatusReport::Complete),
            Some(VerificationOutcome::Verified) => match self.file_count {
                Some(count) => Ok(StatusReport::Verified { file_count: count }),
                None => Err(ReportError::FileCountUnknown),
            },
            Some(VerificationOutcome::AllFilesMissing) => match self.file_count {
                Some(count) => Ok(StatusReport::AllFilesMissing { file_count: count }),
                None => Err(ReportError::FileCountUnknown),
            },
            Some(VerificationOutcome::Incomplete(missing, damaged)) => match self.file_count {
                Some(count) => Ok(
                    StatusReport::Incomplete {
                        file_count: count,
                        missing: findings_total(missing),
                        damaged: findings_total(damaged),
                    },
                ),
                None => Err(ReportError::FileCountUnknown),
            },
        }
    }
}

} // verus!
