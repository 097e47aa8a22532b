//! The catalog of candidate image paths.
//!
//! The catalog owns the shuffled play order of one cycle: `refresh` takes
//! a fresh directory listing (the host reads the directory; non-image
//! entries are tolerated here and weeded out later by decode failure, not
//! by extension sniffing) and permutes it, and `next_path` hands the paths
//! out in that order, first to last, with no reordering.

use vstd::prelude::*;

use crate::rng::shuffle_paths;

verus! {

/// A shuffled sequence of candidate paths and a cursor into it.
pub struct PathCatalog {
    /// The paths of the current cycle, in play order.
    pub paths: Vec<String>,
    /// How many of them have been handed out already.
    pub pos: usize,
}

impl PathCatalog {
    pub open spec fn wf(self) -> bool {
        self.pos <= self.paths@.len()
    }

    /// An empty catalog; a valid state that callers must handle, not an
    /// error.
    pub fn new() -> (r: PathCatalog)
        ensures
            r.wf(),
            r.paths@.len() == 0,
            r.pos == 0,
    {
        PathCatalog { paths: Vec::new(), pos: 0 }
    }

    /// Replaces the catalog's contents with a random permutation of
    /// `entries` and rewinds the cursor: exactly the given paths will be
    /// played, each once, in the shuffled order.
    pub fn refresh(&mut self, entries: Vec<String>)
        ensures
            final(self).wf(),
            final(self).paths@.to_multiset() == entries@.to_multiset(),
            final(self).paths@.len() == entries@.len(),
            final(self).pos == 0,
    {
        let ghost given = entries@;
        let mut entries = entries;
        shuffle_paths(&mut entries);
        proof {
            given.to_multiset_ensures();
            entries@.to_multiset_ensures();
        }
        self.paths = entries;
        self.pos = 0;
    }

    /// Whether the catalog holds no paths at all.
    pub fn is_empty(&self) -> (r: bool)
        ensures
            r == (self.paths@.len() == 0),
    {
        self.paths.len() == 0
    }

    /// The next path in play order, or `None` when the cycle is played
    /// out. Paths come out exactly in the shuffled order, FIFO.
    pub fn next_path(&mut self) -> (r: Option<String>)
        requires
            old(self).wf(),
        ensures
            final(self).wf(),
            final(self).paths == old(self).paths,
            r is Some <==> old(self).pos < old(self).paths@.len(),
            r matches Some(p) ==> p@ == old(self).paths@[old(self).pos as int]@ && final(self).pos
                == old(self).pos + 1,
            r is None ==> *final(self) == *old(self),
    {
        if self.pos < self.paths.len() {
            let p = self.paths[self.pos].clone();
            self.pos = self.pos + 1;
            Some(p)
        } else {
            None
        }
    }
}

} // verus!
