//! What the host found on disk, as a value the locator can be asked about.

use crate::path::{FsPath, PathView};
use vstd::prelude::*;

verus! {

/// The paths that the host found to exist. A path that is not recorded counts
/// as absent.
#[derive(Debug)]
pub struct FsSnapshot {
    pub present: Vec<FsPath>,
}

impl View for FsSnapshot {
    type V = Set<PathView>;

    open spec fn view(&self) -> Set<PathView> {
        Set::new(
            |p: PathView| exists|i: int| 0 <= i < self.present.len() && (#[trigger] self.present[i])@ == p,
        )
    }
}

impl FsSnapshot {
    /// A snapshot in which nothing exists.
    pub fn new() -> (r: FsSnapshot)
        ensures
            r@ == Set::<PathView>::empty(),
    {
        let r = FsSnapshot { present: Vec::new() };
        assert(r@ =~= Set::<PathView>::empty());
        r
    }

    /// Records that `path` exists.
    pub fn record(&mut self, path: FsPath)
        ensures
            final(self)@ == old(self)@.insert(path@),
    {
        self.present.push(path);
        assert forall|p: PathView| self@.contains(p) == old(self)@.insert(path@).contains(p) by {
            if old(self)@.insert(path@).contains(p) {
                if p == path@ {
                    assert(self.present[old(self).present.len() as int]@ == p);
                } else {
                    let i = choose|i: int|
                        0 <= i < old(self).present.len() && (#[trigger] old(self).present[i])@ == p;
                    assert(self.present[i]@ == p);
                }
            }
        }
        assert(self@ =~= old(self)@.insert(path@));
    }

    /// Whether `path` exists in this snapshot.
    pub fn has(&self, path: &FsPath) -> (r: bool)
        ensures
            r == self@.contains(path@),
    {
        let mut i: usize = 0;
        while i < self.present.len()
            invariant
                i <= self.present.len(),
                forall|j: int| 0 <= j < i ==> (#[trigger] self.present[j])@ != path@,
            decreases self.present.len() - i,
        {
            if self.present[i].same_as(path) {
                return true;
            }
            i += 1;
        }
        false
    }
}

} // verus!
