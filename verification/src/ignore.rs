//! Feedback-loop avoidance between the pipelines and the file watcher:
//! every path a pipeline is about to write is announced first, and the
//! watch driver drops any filesystem event for an announced path instead
//! of triggering a rebuild.

use vstd::prelude::*;

use crate::bytes::bytes_eq;

verus! {

/// `p` is among the announced paths.
pub open spec fn contains_path(paths: Seq<Vec<u8>>, p: Seq<u8>) -> bool {
    exists|i: int| 0 <= i < paths.len() && paths[i]@ == p
}

/// The watch driver's record of paths the pipelines write themselves:
/// filesystem events for these must not trigger a rebuild.
pub struct IgnoreList {
    pub paths: Vec<Vec<u8>>,
}

impl IgnoreList {
    pub fn new() -> (r: IgnoreList)
        ensures
            r.paths@.len() == 0,
    {
        IgnoreList { paths: Vec::new() }
    }

    /// Record a path a pipeline announced before writing to it.
    pub fn announce(&mut self, p: Vec<u8>)
        ensures
            final(self).paths@ == old(self).paths@.push(p),
    {
        self.paths.push(p);
    }

    /// The driver's decision for one filesystem event: rebuild only when
    /// the changed path was not announced by a pipeline.
    #[verifier::loop_isolation(false)]
    pub fn should_rebuild(&self, changed: &Vec<u8>) -> (r: bool)
        ensures
            r == !contains_path(self.paths@, changed@),
    {
        let n = self.paths.len();
        let mut i: usize = 0;
        while i < n
            invariant
                n == self.paths@.len(),
                i <= n,
                forall|j: int| 0 <= j < i ==> self.paths@[j]@ != changed@,
            decreases n - i,
        {
            if bytes_eq(&self.paths[i], changed) {
                proof {
                    assert(contains_path(self.paths@, changed@));
                }
                return false;
            }
            i += 1;
        }
        proof {
            if contains_path(self.paths@, changed@) {
                let w = choose|w: int| 0 <= w < self.paths@.len() && self.paths@[w]@ == changed@;
                assert(self.paths@[w]@ != changed@);
            }
        }
        true
    }
}

/// Law: once a path is announced it stays announced, and a filesystem
/// event for it never triggers a rebuild; announcing never un-announces
/// any other path.
pub proof fn lemma_announced_suppressed(paths: Seq<Vec<u8>>, p: Vec<u8>)
    ensures
        contains_path(paths.push(p), p@),
        forall|q: Seq<u8>| contains_path(paths, q) ==> contains_path(paths.push(p), q),
{
    assert(paths.push(p)[paths.len() as int] == p);
    assert forall|q: Seq<u8>| contains_path(paths, q) implies contains_path(
        paths.push(p),
        q,
    ) by {
        let w = choose|w: int| 0 <= w < paths.len() && paths[w]@ == q;
        assert(paths.push(p)[w] == paths[w]);
    }
}

} // verus!
