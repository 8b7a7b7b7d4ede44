//! Integrity verification for mirrored multi-file dataset releases.
//!
//! A release is described by a piece-hashed manifest: an ordered list of
//! files and the SHA-1 digest of every fixed-size piece of their
//! concatenation. This crate decides whether a local copy is faithful to the
//! manifest and keeps the status of a release.
//!
//! The library reads no file itself. A fast check is told the sizes of the
//! files ([`check::check`]). A full verification is a machine of steps
//! ([`run::begin`], [`run::VerifyRun::step`], [`run::VerifyRun::supply`])
//! whose caller does the reading; [`verify::verify`] runs it over a
//! directory held in memory. What both decide is stated over the stream of
//! the release ([`stream`]), and [`laws`] holds what follows for every
//! manifest and directory.

pub mod path;
pub mod digest;
pub mod ident;
pub mod manifest;
pub mod nesting;
pub mod torrent;
pub mod outcome;
pub mod stored;
pub mod scan;
pub mod cursor;
pub mod stream;
pub mod run;
pub mod verify;
pub mod check;
pub mod mark;
pub mod release;
pub mod tally;
pub mod fetch;
pub mod laws;
