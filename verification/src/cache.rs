//! The render cache: a memoization layer over the scene state.
//!
//! The cache holds the last computed primitive sequence; it is dirty
//! exactly when it holds none. The shell clears it once per tick,
//! before asking for the next frame; a read recomputes only when the
//! cache is dirty and otherwise hands the stored frame back unchanged.

use vstd::prelude::*;
use crate::canvas_state::{frame_spec, State, StateView};
use crate::primitives::{duplicate_prims, prims_view, Primitive, PrimitiveView};

verus! {

/// The render cache: the last computed frame, if still valid, and the
/// number of recomputations performed so far.
#[derive(Debug)]
pub struct Cache {
    cached: Option<Vec<Primitive>>,
    recompute_count: u64,
}

/// The mathematical value of a [`Cache`].
#[verifier::ext_equal]
pub struct CacheView {
    pub cached: Option<Seq<PrimitiveView>>,
    pub recompute_count: u64,
}

impl View for Cache {
    type V = CacheView;

    closed spec fn view(&self) -> CacheView {
        CacheView {
            cached: match self.cached {
                Some(ps) => Some(prims_view(ps@)),
                None => None,
            },
            recompute_count: self.recompute_count,
        }
    }
}

impl CacheView {
    /// The cache after an invalidation: empty, nothing recomputed.
    pub open spec fn cleared(self) -> CacheView {
        CacheView { cached: None, ..self }
    }

    /// What a read returns: the stored frame if one is held, else the
    /// frame composed from the given scene state.
    pub open spec fn read_result(self, s: StateView) -> Seq<PrimitiveView> {
        match self.cached {
            Some(ps) => ps,
            None => frame_spec(s),
        }
    }

    /// The cache after a read: unchanged if a frame was held, else
    /// filled with the frame just composed, counting one recomputation.
    pub open spec fn read_next(self, s: StateView) -> CacheView {
        match self.cached {
            Some(_) => self,
            None => CacheView {
                cached: Some(frame_spec(s)),
                recompute_count: (self.recompute_count + 1) as u64,
            },
        }
    }
}

impl Cache {
    /// A fresh, empty cache.
    pub fn new() -> (c: Cache)
        ensures
            c@.cached is None,
            c@.recompute_count == 0,
    {
        Cache { cached: None, recompute_count: 0 }
    }

    /// Invalidate the cache: the next read will recompute.
    pub fn clear(&mut self)
        ensures
            final(self)@ == old(self)@.cleared(),
    {
        self.cached = None;
    }

    /// The number of frame recomputations performed so far.
    pub fn recompute_count(&self) -> (n: u64)
        ensures
            n == self@.recompute_count,
    {
        self.recompute_count
    }

    /// Read the current frame: recompute it from the scene state only
    /// when the cache is dirty, and hand back the stored frame
    /// unchanged otherwise.
    pub fn with(&mut self, state: &State) -> (frame: Vec<Primitive>)
        requires
            state@.wf(),
            old(self)@.recompute_count < u64::MAX,
        ensures
            prims_view(frame@) == old(self)@.read_result(state@),
            final(self)@ == old(self)@.read_next(state@),
    {
        match &self.cached {
            Some(ps) => duplicate_prims(ps),
            None => {
                let frame = state.draw();
                let stored = duplicate_prims(&frame);
                self.cached = Some(stored);
                self.recompute_count = self.recompute_count + 1;
                frame
            },
        }
    }
}

/// Reading the cache twice with no intervening invalidation or advance
/// is idempotent: both reads yield the same primitive sequence, the
/// cache ends where the first read left it, and the two reads together
/// recompute at most once.
pub proof fn lemma_read_idempotent(c: CacheView, s: StateView)
    ensures
        c.read_next(s).read_result(s) == c.read_result(s),
        c.read_next(s).read_next(s) == c.read_next(s),
        c.read_next(s).recompute_count <= c.recompute_count + 1,
{
}

} // verus!
