//! The scene as the shell drives it: a tick message advances the
//! simulation time and invalidates the render cache; a view request
//! reads the current frame through the cache.

use vstd::prelude::*;
use crate::cache::{Cache, CacheView};
use crate::canvas_state::{frame_spec, State, StateView};
use crate::primitives::{prims_view, Primitive, PrimitiveView};

verus! {

/// A message from the shell: one tick of the external tick source,
/// carrying its monotonic timestamp in milliseconds.
#[derive(Debug, Clone, Copy, PartialEq, Eq, Structural)]
pub enum Message {
    Tick(u64),
}

/// The scene and its render cache, driven by the shell's event loop.
#[derive(Debug)]
pub struct SolarSystem {
    state: State,
    solar_system: Cache,
}

/// The mathematical value of a [`SolarSystem`].
#[verifier::ext_equal]
pub struct SolarSystemView {
    pub state: StateView,
    pub cache: CacheView,
}

impl View for SolarSystem {
    type V = SolarSystemView;

    closed spec fn view(&self) -> SolarSystemView {
        SolarSystemView { state: self.state@, cache: self.solar_system@ }
    }
}

impl SolarSystemView {
    /// Well-formedness: the scene state is well formed.
    pub open spec fn wf(self) -> bool {
        self.state.wf()
    }

    /// The value after a tick carrying `now_ms`: the simulation time
    /// moves and the cache is invalidated.
    pub open spec fn ticked(self, now_ms: u64) -> SolarSystemView {
        SolarSystemView { state: self.state.advanced_to(now_ms), cache: self.cache.cleared() }
    }

    /// What a view request returns: the cache's read over the current
    /// scene state.
    pub open spec fn view_result(self) -> Seq<PrimitiveView> {
        self.cache.read_result(self.state)
    }

    /// The value after a view request: only the cache moves.
    pub open spec fn view_next(self) -> SolarSystemView {
        SolarSystemView { state: self.state, cache: self.cache.read_next(self.state) }
    }
}

impl SolarSystem {
    /// A fresh scene over the given viewport, constructed at `now_ms`,
    /// with an empty render cache.
    pub fn new(width: u32, height: u32, now_ms: u64) -> (s: SolarSystem)
        ensures
            s@.wf(),
            s@.state.start_ms == now_ms,
            s@.state.current_ms == now_ms,
            s@.state.width == width,
            s@.state.height == height,
            s@.cache.cached is None,
            s@.cache.recompute_count == 0,
    {
        SolarSystem { state: State::new(width, height, now_ms), solar_system: Cache::new() }
    }

    /// The display title.
    pub fn title(&self) -> (t: String)
        ensures
            t@ == "Solar system"@,
    {
        broadcast use vstd::string::to_string_from_display_ensures_for_str;

        "Solar system".to_string()
    }

    /// Handle one shell message: a tick advances the simulation time to
    /// its timestamp and invalidates the cache, always — even a tick
    /// whose timestamp equals the current one counts as a change.
    pub fn update(&mut self, message: Message)
        requires
            old(self)@.wf(),
            (match message {
                Message::Tick(now_ms) => now_ms >= old(self)@.state.start_ms,
            }),
        ensures
            final(self)@.wf(),
            (match message {
                Message::Tick(now_ms) => final(self)@ == old(self)@.ticked(now_ms),
            }),
    {
        match message {
            Message::Tick(now_ms) => {
                self.state.update(now_ms);
                self.solar_system.clear();
            },
        }
    }

    /// The number of frame recomputations the render cache has
    /// performed so far.
    pub fn recompute_count(&self) -> (n: u64)
        ensures
            n == self@.cache.recompute_count,
    {
        self.solar_system.recompute_count()
    }

    /// The current frame, read through the render cache: recomputed
    /// only when a tick has invalidated the cache since the last read.
    pub fn view_frame(&mut self) -> (frame: Vec<Primitive>)
        requires
            old(self)@.wf(),
            old(self)@.cache.recompute_count < u64::MAX,
        ensures
            final(self)@.wf(),
            prims_view(frame@) == old(self)@.view_result(),
            final(self)@ == old(self)@.view_next(),
    {
        self.solar_system.with(&self.state)
    }
}

/// After two ticks in order, the next read reflects the later
/// timestamp, never a stale frame: the frame is composed from the
/// scene state at `t2`.
pub proof fn lemma_no_stale_frame(sys: SolarSystemView, t1: u64, t2: u64)
    requires
        t1 < t2,
    ensures
        sys.ticked(t1).ticked(t2).view_result() == frame_spec(sys.state.advanced_to(t2)),
        sys.ticked(t1).ticked(t2).view_next().cache.cached == Some(
            frame_spec(sys.state.advanced_to(t2)),
        ),
{
    assert(sys.ticked(t1).ticked(t2).state =~= sys.state.advanced_to(t2));
}

} // verus!
