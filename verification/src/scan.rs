//! Findings gathered file by file before any piece is hashed.

use crate::manifest::FileSpec;
use crate::manifest::Manifest;
use crate::outcome::finding_about;
use crate::outcome::findings_view;
use crate::outcome::FileFinding;
use crate::outcome::FindingKind;
use crate::outcome::FindingSpec;
use vstd::prelude::*;

verus! {

/// The findings of the given kind about those of the first `n` files whose
/// flag is set, in the order of the manifest.
pub open spec fn flagged(files: Seq<FileSpec>, flags: Seq<bool>, kind: FindingKind, n: nat) -> Seq<
    FindingSpec,
>
    decreases n,
{
    if n == 0 || n > files.len() || n > flags.len() {
        Seq::empty()
    } else {
        let before = flagged(files, flags, kind, (n - 1) as nat);
        if flags[n - 1] {
            before.push(finding_about(files[n - 1], kind))
        } else {
            before
        }
    }
}

/// No more findings than files, and as many only where every flag is set.
pub proof fn lemma_flagged_count(files: Seq<FileSpec>, flags: Seq<bool>, kind: FindingKind, n: nat)
    requires
        n <= files.len(),
        n <= flags.len(),
    ensures
        flagged(files, flags, kind, n).len() <= n,
        flagged(files, flags, kind, n).len() == n <==> forall|i: int| 0 <= i < n ==> flags[i],
        flagged(files, flags, kind, n).len() == 0 <==> forall|i: int| 0 <= i < n ==> !flags[i],
    decreases n,
{
    if n > 0 {
        lemma_flagged_count(files, flags, kind, (n - 1) as nat);
        if flagged(files, flags, kind, n).len() == n {
            assert(flags[n - 1]);
        }
    }
}

impl Manifest {
    /// The findings of the given kind about the files whose flag is set.
    pub fn collect_flagged(&self, flags: &Vec<bool>, kind: FindingKind) -> (found: Vec<FileFinding>)
        requires
            flags.len() == self.files.len(),
        ensures
            findings_view(found@) == flagged(self@.files, flags@, kind, self.files.len() as nat),
    {
        let mut found: Vec<FileFinding> = Vec::new();
        let mut i: usize = 0;
        while i < self.files.len()
            invariant
                i <= self.files.len(),
                flags.len() == self.files.len(),
                findings_view(found@) =~= flagged(self@.files, flags@, kind, i as nat),
            decreases self.files.len() - i,
        {
            let ghost before = found@;
            if flags[i] {
                let finding = FileFinding::about(&self.files[i], kind);
                found.push(finding);
                assert(findings_view(found@) =~= findings_view(before).push(finding@));
            }
            i += 1;
        }
        found
    }
}

} // verus!
