//! The loader's side of the image pipeline, as a state machine.
//!
//! One pass plays the whole catalog: each path is decoded in turn, a
//! failed decode drops the path for the rest of the pass (it returns only
//! with the next refresh), a successful decode is pushed to the bounded
//! queue — where the host's push blocks under backpressure. The host
//! thread runs the loop and does the file reading, decoding and pushing;
//! everything the loop decides is decided here.

use vstd::prelude::*;

use crate::catalog::PathCatalog;

verus! {

/// Consecutive passes that produced no valid image before the situation
/// counts as a data-availability fault for the consumer to escalate.
pub const BARREN_PASS_FAULT: u64 = 9;

/// Pass-by-pass bookkeeping of the background image loader.
pub struct ImageLoader {
    /// The shuffled paths of the current pass.
    pub catalog: PathCatalog,
    /// Whether this pass has produced at least one valid image so far.
    pub produced: bool,
    /// Consecutive finished passes that produced no valid image.
    pub barren_passes: u64,
}

impl ImageLoader {
    pub open spec fn wf(self) -> bool {
        self.catalog.wf()
    }

    pub fn new() -> (r: ImageLoader)
        ensures
            r.wf(),
            r.catalog.paths@.len() == 0,
            !r.produced,
            r.barren_passes == 0,
    {
        ImageLoader { catalog: PathCatalog::new(), produced: false, barren_passes: 0 }
    }

    /// Begins a pass over a fresh directory listing: the catalog is
    /// reshuffled from `entries` and the pass starts with nothing
    /// produced. Returns whether the catalog is empty — in that case the
    /// host must log a diagnostic and block for new files rather than
    /// busy-loop; an empty catalog is never itself fatal.
    pub fn start_pass(&mut self, entries: Vec<String>) -> (empty: bool)
        ensures
            final(self).wf(),
            final(self).catalog.paths@.to_multiset() == entries@.to_multiset(),
            final(self).catalog.paths@.len() == entries@.len(),
            final(self).catalog.pos == 0,
            !final(self).produced,
            final(self).barren_passes == old(self).barren_passes,
            empty == (entries@.len() == 0),
    {
        self.catalog.refresh(entries);
        self.produced = false;
        self.catalog.is_empty()
    }

    /// The next path to try to decode, in play order; `None` when the
    /// pass is played out and the host should finish it.
    pub fn next_path(&mut self) -> (r: Option<String>)
        requires
            old(self).wf(),
        ensures
            final(self).wf(),
            final(self).catalog.paths == old(self).catalog.paths,
            final(self).produced == old(self).produced,
            final(self).barren_passes == old(self).barren_passes,
            r is Some <==> old(self).catalog.pos < old(self).catalog.paths@.len(),
            r matches Some(p) ==> p@ == old(self).catalog.paths@[old(self).catalog.pos as int]@
                && final(self).catalog.pos == old(self).catalog.pos + 1,
            r is None ==> *final(self) == *old(self),
    {
        self.catalog.next_path()
    }

    /// Records that a decoded image was handed to the queue: the pass has
    /// produced, so it is not barren.
    pub fn image_sent(&mut self)
        ensures
            *final(self) == (ImageLoader { produced: true, ..*old(self) }),
    {
        self.produced = true;
    }

    /// Ends the pass: a pass that produced at least one image clears the
    /// barren streak, one that produced none lengthens it.
    pub fn end_pass(&mut self)
        ensures
            final(self).catalog == old(self).catalog,
            final(self).produced == old(self).produced,
            old(self).produced ==> final(self).barren_passes == 0,
            !old(self).produced ==> final(self).barren_passes == if old(self).barren_passes
                < u64::MAX {
                old(self).barren_passes + 1
            } else {
                old(self).barren_passes as int
            },
    {
        if self.produced {
            self.barren_passes = 0;
        } else {
            if self.barren_passes < u64::MAX {
                self.barren_passes = self.barren_passes + 1;
            }
        }
    }

    /// Whether enough consecutive passes came up empty that the consumer
    /// must treat the pipeline as starved of data.
    pub fn starving(&self) -> (r: bool)
        ensures
            r == (self.barren_passes >= BARREN_PASS_FAULT),
    {
        self.barren_passes >= BARREN_PASS_FAULT
    }
}

} // verus!
