//! A release of the catalogue and the rules by which its status changes.

use crate::check::check;
use crate::check::check_outcome;
use crate::ident::generate_id;
use crate::ident::release_id;
use crate::manifest::Manifest;
use crate::mark::mark_incomplete;
use crate::mark::mark_missing;
use crate::mark::marking;
use crate::mark::paths_view;
use crate::mark::MarkError;
use crate::outcome::findings_view;
use crate::outcome::label_of;
use crate::outcome::status_label;
use crate::outcome::status_of;
use crate::outcome::status_view;
use crate::outcome::FileFinding;
use crate::outcome::OutcomeSpec;
use crate::outcome::VerificationOutcome;
use crate::path::path_view;
use crate::run::VerificationError;
use crate::verify::snapshot_view;
use crate::verify::verify;
use crate::verify::verify_outcome;
use vstd::prelude::*;

verus! {

/// A release of the catalogue. Its status is `None` while it is unknown.
#[derive(Debug)]
pub struct Release {
    pub id: String,
    pub date: String,
    pub name: String,
    pub directory: Option<String>,
    pub file_count: Option<usize>,
    pub notes: Option<String>,
    pub size: Option<u64>,
    pub torrent_url: Option<String>,
    pub download_url: Option<String>,
    pub verification_outcome: Option<VerificationOutcome>,
}

/// A release as it is stored: one row of text and numbers.
#[derive(Debug)]
pub struct StoredRelease {
    pub id: String,
    pub date: String,
    pub name: String,
    pub directory: Option<String>,
    pub file_count: Option<usize>,
    pub size: Option<u64>,
    pub torrent_url: Option<String>,
    pub verification_outcome: String,
    pub notes: Option<String>,
    pub download_url: Option<String>,
}

/// An address as it is stored stands for none where it is empty.
pub open spec fn stored_address(address: Option<String>) -> Option<String> {
    match address {
        Some(text) => if text@.len() == 0 {
            None
        } else {
            Some(text)
        },
        None => None,
    }
}

/// An address as it is stored stands for none where it is empty.
pub fn address_from_stored(address: Option<String>) -> (kept: Option<String>)
    ensures
        kept == stored_address(address),
{
    match address {
        Some(text) => {
            if text.as_str().is_empty() {
                None
            } else {
                Some(text)
            }
        },
        None => None,
    }
}

impl Release {
    /// The status of the release.
    pub open spec fn status(&self) -> Option<OutcomeSpec> {
        status_view(self.verification_outcome)
    }

    /// Whether two releases differ in nothing but their status.
    pub open spec fn same_but_status(&self, other: &Release) -> bool {
        &&& self.id == other.id
        &&& self.date == other.date
        &&& self.name == other.name
        &&& self.directory == other.directory
        &&& self.file_count == other.file_count
        &&& self.notes == other.notes
        &&& self.size == other.size
        &&& self.torrent_url == other.torrent_url
        &&& self.download_url == other.download_url
    }

    /// The identifier of the release with the given date and name.
    pub fn generate_id(date: &str, name: &str) -> (id: String)
        ensures
            id@ == release_id(date@, name@),
            id@.len() == 40,
    {
        generate_id(date, name)
    }

    /// A release of unknown status and without notes, identified by its date
    /// and name.
    pub fn new(
        date: String,
        name: String,
        directory: Option<String>,
        file_count: Option<usize>,
        size: Option<u64>,
        torrent_url: Option<String>,
        download_url: Option<String>,
    ) -> (release: Release)
        ensures
            release.id@ == release_id(date@, name@),
            release.id@.len() == 40,
            release.date == date,
            release.name == name,
            release.directory == directory,
            release.file_count == file_count,
            release.notes is None,
            release.size == size,
            release.torrent_url == torrent_url,
            release.download_url == download_url,
            release.status() is None,
    {
        let id = Release::generate_id(date.as_str(), name.as_str());
        Release {
            id,
            date,
            name,
            directory,
            file_count,
            notes: None,
            size,
            torrent_url,
            download_url,
            verification_outcome: None,
        }
    }

    /// The release that a stored row and its stored findings stand for. An
    /// empty address stands for none, and a tag that is not known for the
    /// unknown status.
    pub fn from_row(row: StoredRelease, missing_files: Vec<FileFinding>, corrupt_files: Vec<
        FileFinding,
    >) -> (release: Release)
        ensures
            release.id == row.id,
            release.date == row.date,
            release.name == row.name,
            release.directory == row.directory,
            release.file_count == row.file_count,
            release.notes == row.notes,
            release.size == row.size,
            release.torrent_url == stored_address(row.torrent_url),
            release.download_url == stored_address(row.download_url),
            release.status() == status_of(
                row.verification_outcome@,
                findings_view(missing_files@),
                findings_view(corrupt_files@),
            ),
    {
        let verification_outcome = VerificationOutcome::from_label(
            &row.verification_outcome,
            missing_files,
            corrupt_files,
        );
        Release {
            id: row.id,
            date: row.date,
            name: row.name,
            directory: row.directory,
            file_count: row.file_count,
            notes: row.notes,
            size: row.size,
            torrent_url: address_from_stored(row.torrent_url),
            download_url: address_from_stored(row.download_url),
            verification_outcome,
        }
    }

    /// The tag of the release's status.
    pub fn get_verification_outcome(&self) -> (tag: String)
        ensures
            tag@ == label_of(self.status()),
    {
        status_label(&self.verification_outcome)
    }

    /// Whether the release has a status other than unknown. Such a release
    /// is not verified again before it is reset.
    pub fn is_resolved(&self) -> (resolved: bool)
        ensures
            resolved == self.status().is_some(),
    {
        self.verification_outcome.is_some()
    }

    /// Gives a release of unknown status the outcome of a verification run.
    /// A release that has a status keeps it. Says whether the outcome was
    /// taken.
    pub fn record_outcome(&mut self, outcome: VerificationOutcome) -> (taken: bool)
        ensures
            final(self).same_but_status(old(self)),
            taken == old(self).status().is_none(),
            taken ==> final(self).status() == Some(outcome@),
            !taken ==> *final(self) == *old(self),
    {
        if self.verification_outcome.is_some() {
            false
        } else {
            self.verification_outcome = Some(outcome);
            true
        }
    }

    /// The fast check of the release. Without the address of a manifest, or
    /// without the manifest, there is nothing to check against.
    pub fn check(
        &self,
        manifest: Option<&Manifest>,
        sizes: &Vec<Option<u64>>,
        disposable: &Vec<String>,
    ) -> (checked: Result<VerificationOutcome, VerificationError>)
        ensures
            match manifest {
                Some(m) if self.torrent_url is Some => if sizes.len() == m.files.len() {
                    checked matches Ok(outcome) && outcome@ == check_outcome(
                        m@,
                        sizes@,
                        path_view(disposable@),
                    )
                } else {
                    checked matches Err(error) && error == VerificationError::WrongFileCount
                },
                _ => checked matches Ok(outcome) && outcome@ == OutcomeSpec::ManifestUnavailable,
            },
    {
        if self.torrent_url.is_none() {
            return Ok(VerificationOutcome::ManifestUnavailable);
        }
        match manifest {
            Some(m) => check(m, sizes, disposable),
            None => Ok(VerificationOutcome::ManifestUnavailable),
        }
    }

    /// The full verification of the release against a directory held in
    /// memory. Without the address of a manifest, or without the manifest,
    /// there is nothing to verify against.
    pub fn verify(&self, manifest: Option<&Manifest>, dir: &Vec<Option<Vec<u8>>>) -> (verified:
        Result<VerificationOutcome, VerificationError>)
        requires
            manifest matches Some(m) ==> m.wf(),
        ensures
            match manifest {
                Some(m) if self.torrent_url is Some => if dir.len() == m.files.len() {
                    verified matches Ok(outcome) && outcome@ == verify_outcome(
                        m@,
                        snapshot_view(dir@),
                    )
                } else {
                    verified matches Err(error) && error == VerificationError::WrongFileCount
                },
                _ => verified matches Ok(outcome) && outcome@ == OutcomeSpec::ManifestUnavailable,
            },
    {
        if self.torrent_url.is_none() {
            return Ok(VerificationOutcome::ManifestUnavailable);
        }
        match manifest {
            Some(m) => verify(m, dir),
            None => Ok(VerificationOutcome::ManifestUnavailable),
        }
    }

    /// Marks the release incomplete by the files that the two lists of paths
    /// name, whatever its status was. Where the marking is refused the
    /// release stays as it was.
    pub fn mark_incomplete(
        &mut self,
        manifest: &Manifest,
        missing_paths: &Vec<Vec<String>>,
        corrupt_paths: &Vec<Vec<String>>,
    ) -> (marked: Result<(), MarkError>)
        ensures
            match marking(manifest@, paths_view(missing_paths@), paths_view(corrupt_paths@)) {
                Ok(outcome) => marked is Ok && final(self).status() == Some(outcome)
                    && final(self).same_but_status(old(self)),
                Err(refusal) => marked matches Err(error) && error@ == refusal && *final(self)
                    == *old(self),
            },
    {
        match mark_incomplete(manifest, missing_paths, corrupt_paths) {
            Ok(outcome) => {
                self.verification_outcome = Some(outcome);
                Ok(())
            },
            Err(error) => Err(error),
        }
    }

    /// Marks every file of the release missing, whatever its status was.
    pub fn mark_missing(&mut self) -> (marked: Result<(), MarkError>)
        ensures
            marked is Ok,
            final(self).status() == Some(OutcomeSpec::AllFilesMissing),
            final(self).same_but_status(old(self)),
    {
        self.verification_outcome = Some(mark_missing());
        Ok(())
    }

    /// Sets the release back to the unknown status and drops its findings.
    pub fn reset(&mut self)
        ensures
            final(self).status() is None,
            final(self).same_but_status(old(self)),
    {
        self.verification_outcome = None;
    }
}

} // verus!
