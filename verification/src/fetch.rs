//! The rules by which a file is fetched from the archive: what a response
//! means, where a broken download is taken up again, and when a failed one
//! is tried again.

use vstd::prelude::*;

verus! {

/// How often a download is attempted before it is given up.
pub const MAX_ATTEMPTS: u32 = 10;

/// The seconds to wait before a failed download is tried again.
pub const RETRY_DELAY_SECONDS: u64 = 5;

/// What the status of a response means.
#[derive(Debug, Clone, Copy, PartialEq, Eq, Structural)]
pub enum ResponseKind {
    /// The body holds what was asked for.
    Success,
    /// The archive does not have the file.
    NotFound,
    /// The request failed with the given status.
    Failed(u16),
}

/// How a download ended.
#[derive(Debug, Clone, Copy, PartialEq, Eq, Structural)]
pub enum FetchResult {
    Completed,
    NotFound,
    Failed,
}

/// What to do after a download ended.
#[derive(Debug, Clone, Copy, PartialEq, Eq, Structural)]
pub enum FetchAction {
    /// The file is there.
    Done,
    /// The archive does not have the file: go on without it.
    Skip,
    /// Try again after so many seconds.
    RetryAfter(u64),
    /// Give the download up and report its last failure.
    GiveUp,
}

/// How to take up a download of which a part may already be on disk.
#[derive(Debug, Clone, Copy, PartialEq, Eq, Structural)]
pub struct ResumePlan {
    /// The byte from which to ask for the file, where a part is on disk.
    pub range_from: Option<u64>,
    /// Whether to append to the part on disk rather than to begin anew.
    pub append: bool,
}

/// The attempts that a download has left.
#[derive(Debug, Clone, Copy, PartialEq, Eq, Structural)]
pub struct Attempts {
    pub left: u32,
}

/// What the status of a response means: 404 that the file is not there,
/// a status from 200 to 299 success, any other status failure.
pub open spec fn kind_of_status(status: u16) -> ResponseKind {
    if status == 404 {
        ResponseKind::NotFound
    } else if 200 <= status <= 299 {
        ResponseKind::Success
    } else {
        ResponseKind::Failed(status)
    }
}

/// What follows a download that ended with `result` while `left` attempts
/// were left, this one counted: the attempts left then, and what to do. A
/// failure takes one attempt; with none left after it the download is given
/// up.
pub open spec fn decision(left: u32, result: FetchResult) -> (Attempts, FetchAction) {
    match result {
        FetchResult::Completed => (Attempts { left }, FetchAction::Done),
        FetchResult::NotFound => (Attempts { left }, FetchAction::Skip),
        FetchResult::Failed => if left <= 1 {
            (Attempts { left: 0 }, FetchAction::GiveUp)
        } else {
            (Attempts { left: (left - 1) as u32 }, FetchAction::RetryAfter(RETRY_DELAY_SECONDS))
        },
    }
}

/// The attempts left after `failures` failed downloads in a row, begun with
/// `left` attempts.
pub open spec fn after_failures(left: u32, failures: nat) -> Attempts
    decreases failures,
{
    if failures == 0 {
        Attempts { left }
    } else {
        decision(after_failures(left, (failures - 1) as nat).left, FetchResult::Failed).0
    }
}

/// After `failures` failures in a row a download has that many attempts
/// fewer, and none below zero.
pub proof fn lemma_after_failures(left: u32, failures: nat)
    ensures
        after_failures(left, failures).left == if failures <= left {
            (left - failures) as u32
        } else {
            0u32
        },
    decreases failures,
{
    if failures > 0 {
        lemma_after_failures(left, (failures - 1) as nat);
    }
}

/// A download that keeps failing is tried again nine times and given up at
/// the tenth failure.
pub proof fn lemma_gives_up_at_tenth(failures: nat)
    requires
        failures < MAX_ATTEMPTS,
    ensures
        decision(after_failures(MAX_ATTEMPTS, failures).left, FetchResult::Failed).1 == if failures
            == MAX_ATTEMPTS - 1 {
            FetchAction::GiveUp
        } else {
            FetchAction::RetryAfter(RETRY_DELAY_SECONDS)
        },
{
    lemma_after_failures(MAX_ATTEMPTS, failures);
}

/// What the status of a response means.
pub fn response_kind(status: u16) -> (kind: ResponseKind)
    ensures
        kind == kind_of_status(status),
{
    if status == 404 {
        ResponseKind::NotFound
    } else if 200 <= status && status <= 299 {
        ResponseKind::Success
    } else {
        ResponseKind::Failed(status)
    }
}

/// How to take up a download of which `partial` bytes are on disk (`None`:
/// there is no part). With a part the file is asked for from its end on;
/// it is appended to unless it is empty.
pub fn resume_plan(partial: Option<u64>) -> (plan: ResumePlan)
    ensures
        plan.range_from == partial,
        plan.append == (partial matches Some(length) && length > 0),
{
    match partial {
        Some(length) => ResumePlan { range_from: Some(length), append: length > 0 },
        None => ResumePlan { range_from: None, append: false },
    }
}

impl Attempts {
    /// The attempts of a download that has not begun.
    pub fn new() -> (attempts: Attempts)
        ensures
            attempts.left == MAX_ATTEMPTS,
    {
        Attempts { left: MAX_ATTEMPTS }
    }

    /// What follows a download that ended with `result`.
    pub fn decide(self, result: FetchResult) -> (decided: (Attempts, FetchAction))
        ensures
            decided == decision(self.left, result),
    {
        match result {
            FetchResult::Completed => (self, FetchAction::Done),
            FetchResult::NotFound => (self, FetchAction::Skip),
            FetchResult::Failed => {
                if self.left <= 1 {
                    (Attempts { left: 0 }, FetchAction::GiveUp)
                } else {
                    (Attempts { left: self.left - 1 }, FetchAction::RetryAfter(RETRY_DELAY_SECONDS))
                }
            },
        }
    }
}

} // verus!
