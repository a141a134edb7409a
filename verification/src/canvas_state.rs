//! The scene state: simulation time, the static starfield, and the
//! composition of one frame's draw-primitive sequence.
//!
//! The state owns the instant of construction and the latest tick
//! timestamp (both in milliseconds); every body pose is derived from
//! their difference, never stored. The starfield is generated once at
//! construction, uniformly over the initial viewport, and is immutable
//! afterwards.

use vstd::prelude::*;
use crate::phase::{
    earth_phase, earth_phase_spec, mars_phase, mars_phase_spec, moon_phase, moon_phase_spec,
    EARTH_PERIOD_MS, MARS_PERIOD_MS, MOON_PERIOD_MS,
};
use crate::primitives::{prims_view, Color, Primitive, PrimitiveView, Shape, Style, TransformOp};

verus! {

/// The number of stars in the background, fixed at construction.
pub const STAR_COUNT: usize = 100;

/// The Sun's body radius, in milli-pixels.
pub const SUN_RADIUS_MILLI: i64 = 70000;

/// Earth's orbit radius around the scene centre, in milli-pixels.
pub const EARTH_ORBIT_RADIUS_MILLI: i64 = 150000;

/// Mars's orbit radius around the scene centre, in milli-pixels.
pub const MARS_ORBIT_RADIUS_MILLI: i64 = 225000;

/// Earth's body radius, in milli-pixels.
pub const EARTH_RADIUS_MILLI: i64 = 12000;

/// The Moon's body radius, in milli-pixels.
pub const MOON_RADIUS_MILLI: i64 = 4000;

/// The Moon's distance from Earth, in milli-pixels.
pub const MOON_DISTANCE_MILLI: i64 = 28000;

/// Mars's body radius, in milli-pixels.
pub const MARS_RADIUS_MILLI: i64 = 15000;

/// One background star: a tiny square at `(x, y)` with the given side,
/// all in milli-pixels.
#[derive(Clone, Copy, Debug, PartialEq, Eq, Structural)]
pub struct Star {
    pub x_milli: u64,
    pub y_milli: u64,
    pub size_milli: u64,
}

/// A coordinate lies inside a viewport extent given in whole pixels:
/// in `[0, extent)` pixels, or exactly zero when the extent is zero
/// (a degenerate viewport clamps the starfield to a zero-area region).
pub open spec fn coord_in_span(x_milli: u64, extent: u32) -> bool {
    if extent > 0 {
        x_milli < extent * 1000
    } else {
        x_milli == 0
    }
}

/// A star is well formed for a viewport: its position lies inside the
/// viewport and its side lies in `[0.5, 1)` pixels.
pub open spec fn star_wf(st: Star, width: u32, height: u32) -> bool {
    &&& coord_in_span(st.x_milli, width)
    &&& coord_in_span(st.y_milli, height)
    &&& 500 <= st.size_milli < 1000
}

/// Relies on `rand::random_range` over a half-open integer range on
/// the thread-local generator: the sampled value lies in `[lo, hi)`.
/// The call panics only on an empty range, which the precondition
/// rules out. Nothing more is promised of the value: it is random.
#[verifier::external_body]
fn random_in_range(lo: u64, hi: u64) -> (r: u64)
    requires
        lo < hi,
    ensures
        lo <= r < hi,
{
    rand::random_range(lo..hi)
}

/// A uniformly random coordinate inside the given extent, in
/// milli-pixels; zero when the extent is zero.
fn random_coord(extent: u32) -> (c: u64)
    ensures
        coord_in_span(c, extent),
{
    if extent == 0 {
        0
    } else {
        random_in_range(0, (extent as u64) * 1000)
    }
}

/// The starfield: exactly `STAR_COUNT` stars, each uniformly random
/// inside the viewport with a side in `[0.5, 1)` pixels. Cardinality
/// and bounds hold for every viewport size; the positions themselves
/// are random.
pub fn generate_stars(width: u32, height: u32) -> (stars: Vec<Star>)
    ensures
        stars@.len() == STAR_COUNT,
        forall|i: int| 0 <= i < stars@.len() ==> star_wf(stars@[i], width, height),
{
    let mut stars: Vec<Star> = Vec::new();
    let mut i: usize = 0;
    while i < STAR_COUNT
        invariant
            i <= STAR_COUNT,
            stars@.len() == i,
            forall|j: int| 0 <= j < i ==> star_wf(stars@[j], width, height),
        decreases STAR_COUNT - i,
    {
        let st = Star {
            x_milli: random_coord(width),
            y_milli: random_coord(height),
            size_milli: random_in_range(500, 1000),
        };
        stars.push(st);
        i = i + 1;
    }
    stars
}

/// The scene state: construction instant, latest tick timestamp, the
/// viewport the starfield was generated for, and the starfield itself.
#[derive(Debug)]
pub struct State {
    start_ms: u64,
    current_ms: u64,
    width: u32,
    height: u32,
    stars: Vec<Star>,
}

/// The mathematical value of a [`State`].
#[verifier::ext_equal]
pub struct StateView {
    pub start_ms: u64,
    pub current_ms: u64,
    pub width: u32,
    pub height: u32,
    pub stars: Seq<Star>,
}

impl View for State {
    type V = StateView;

    closed spec fn view(&self) -> StateView {
        StateView {
            start_ms: self.start_ms,
            current_ms: self.current_ms,
            width: self.width,
            height: self.height,
            stars: self.stars@,
        }
    }
}

impl StateView {
    /// Well-formedness: time never runs before construction, and the
    /// starfield is exactly `STAR_COUNT` stars inside the viewport.
    pub open spec fn wf(self) -> bool {
        &&& self.start_ms <= self.current_ms
        &&& self.stars.len() == STAR_COUNT
        &&& forall|i: int|
            0 <= i < self.stars.len() ==> star_wf(self.stars[i], self.width, self.height)
    }

    /// The simulation time elapsed since construction, in milliseconds.
    pub open spec fn elapsed_ms(self) -> int {
        self.current_ms - self.start_ms
    }

    /// The view after a tick carrying `now_ms`: only the current
    /// timestamp moves.
    pub open spec fn advanced_to(self, now_ms: u64) -> StateView {
        StateView { current_ms: now_ms, ..self }
    }
}

impl State {
    /// A fresh scene: both timestamps are the construction instant and
    /// the starfield is generated once over the given viewport.
    pub fn new(width: u32, height: u32, now_ms: u64) -> (s: State)
        ensures
            s@.wf(),
            s@.start_ms == now_ms,
            s@.current_ms == now_ms,
            s@.width == width,
            s@.height == height,
    {
        State {
            start_ms: now_ms,
            current_ms: now_ms,
            width,
            height,
            stars: generate_stars(width, height),
        }
    }

    /// Advance the simulation time to `now_ms`. Timestamps are the
    /// tick source's and never precede the construction instant; the
    /// starfield and the viewport are untouched.
    pub fn update(&mut self, now_ms: u64)
        requires
            now_ms >= old(self)@.start_ms,
        ensures
            final(self)@ == old(self)@.advanced_to(now_ms),
    {
        self.current_ms = now_ms;
    }

    /// The simulation time elapsed since construction, in milliseconds.
    pub fn elapsed_ms(&self) -> (e: u64)
        requires
            self@.start_ms <= self@.current_ms,
        ensures
            e == self@.elapsed_ms(),
    {
        self.current_ms - self.start_ms
    }
}

/// Opaque black: the space background.
pub open spec fn space_color() -> Color {
    Color { red: 0, green: 0, blue: 0, alpha_milli: 1000 }
}

/// Opaque white: the stars and the Moon.
pub open spec fn white_color() -> Color {
    Color { red: 255, green: 255, blue: 255, alpha_milli: 1000 }
}

/// The Sun's fill colour.
pub open spec fn sun_color() -> Color {
    Color { red: 0xF9, green: 0xD7, blue: 0x1C, alpha_milli: 1000 }
}

/// Earth's orbit guide: translucent blue.
pub open spec fn earth_orbit_color() -> Color {
    Color { red: 0, green: 153, blue: 255, alpha_milli: 100 }
}

/// Mars's orbit guide: translucent orange.
pub open spec fn mars_orbit_color() -> Color {
    Color { red: 193, green: 68, blue: 14, alpha_milli: 100 }
}

/// Earth's fill colour.
pub open spec fn earth_color() -> Color {
    Color { red: 0x6B, green: 0x93, blue: 0xD6, alpha_milli: 1000 }
}

/// Mars's fill colour.
pub open spec fn mars_color() -> Color {
    Color { red: 193, green: 68, blue: 14, alpha_milli: 1000 }
}

/// The planets' anti-sunward shadow: black at 0.7 opacity.
pub open spec fn shadow_color() -> Color {
    Color { red: 0, green: 0, blue: 0, alpha_milli: 700 }
}

/// The scene centre's x coordinate, in milli-pixels.
pub open spec fn center_x_milli(s: StateView) -> int {
    s.width * 500
}

/// The scene centre's y coordinate, in milli-pixels.
pub open spec fn center_y_milli(s: StateView) -> int {
    s.height * 500
}

/// Earth's local frame: translate to the scene centre, rotate by
/// Earth's phase angle, translate outward along the orbit radius.
pub open spec fn earth_frame(s: StateView) -> Seq<TransformOp> {
    seq![
        TransformOp::Translate {
            dx_milli: center_x_milli(s) as i64,
            dy_milli: center_y_milli(s) as i64,
        },
        TransformOp::Rotate {
            num: earth_phase_spec(s.elapsed_ms()) as u64,
            denom: EARTH_PERIOD_MS,
        },
        TransformOp::Translate { dx_milli: EARTH_ORBIT_RADIUS_MILLI, dy_milli: 0 },
    ]
}

/// The Moon's local frame, nested inside Earth's: rotate by the Moon's
/// own phase angle, then translate by the Moon's distance.
pub open spec fn moon_frame(s: StateView) -> Seq<TransformOp> {
    earth_frame(s) + seq![
        TransformOp::Rotate {
            num: moon_phase_spec(s.elapsed_ms()) as u64,
            denom: MOON_PERIOD_MS,
        },
        TransformOp::Translate { dx_milli: 0, dy_milli: MOON_DISTANCE_MILLI },
    ]
}

/// Mars's local frame: as Earth's, but with the unbiased phase angle
/// and Mars's orbit radius. Mars has no drawn satellite.
pub open spec fn mars_frame(s: StateView) -> Seq<TransformOp> {
    seq![
        TransformOp::Translate {
            dx_milli: center_x_milli(s) as i64,
            dy_milli: center_y_milli(s) as i64,
        },
        TransformOp::Rotate {
            num: mars_phase_spec(s.elapsed_ms()) as u64,
            denom: MARS_PERIOD_MS,
        },
        TransformOp::Translate { dx_milli: MARS_ORBIT_RADIUS_MILLI, dy_milli: 0 },
    ]
}

/// The opaque black rectangle covering the whole viewport.
pub open spec fn background_prim(s: StateView) -> PrimitiveView {
    PrimitiveView {
        transform: Seq::empty(),
        shape: Shape::Rect {
            x_milli: 0,
            y_milli: 0,
            width_milli: (s.width * 1000) as i64,
            height_milli: (s.height * 1000) as i64,
        },
        style: Style::Fill { color: space_color() },
    }
}

/// One star: a small white filled square in world coordinates.
pub open spec fn star_prim(st: Star) -> PrimitiveView {
    PrimitiveView {
        transform: Seq::empty(),
        shape: Shape::Rect {
            x_milli: st.x_milli as i64,
            y_milli: st.y_milli as i64,
            width_milli: st.size_milli as i64,
            height_milli: st.size_milli as i64,
        },
        style: Style::Fill { color: white_color() },
    }
}

/// The Sun's disk at the scene centre.
pub open spec fn sun_prim(s: StateView) -> PrimitiveView {
    PrimitiveView {
        transform: Seq::empty(),
        shape: Shape::Circle {
            center_x_milli: center_x_milli(s) as i64,
            center_y_milli: center_y_milli(s) as i64,
            radius_milli: SUN_RADIUS_MILLI,
        },
        style: Style::Fill { color: sun_color() },
    }
}

/// Earth's orbit guide circle, stroked one pixel wide.
pub open spec fn earth_orbit_prim(s: StateView) -> PrimitiveView {
    PrimitiveView {
        transform: Seq::empty(),
        shape: Shape::Circle {
            center_x_milli: center_x_milli(s) as i64,
            center_y_milli: center_y_milli(s) as i64,
            radius_milli: EARTH_ORBIT_RADIUS_MILLI,
        },
        style: Style::Stroke { color: earth_orbit_color(), width_milli: 1000 },
    }
}

/// Mars's orbit guide circle, stroked one pixel wide.
pub open spec fn mars_orbit_prim(s: StateView) -> PrimitiveView {
    PrimitiveView {
        transform: Seq::empty(),
        shape: Shape::Circle {
            center_x_milli: center_x_milli(s) as i64,
            center_y_milli: center_y_milli(s) as i64,
            radius_milli: MARS_ORBIT_RADIUS_MILLI,
        },
        style: Style::Stroke { color: mars_orbit_color(), width_milli: 1000 },
    }
}

/// Earth's body, drawn at the origin of Earth's local frame.
pub open spec fn earth_prim(s: StateView) -> PrimitiveView {
    PrimitiveView {
        transform: earth_frame(s),
        shape: Shape::Circle { center_x_milli: 0, center_y_milli: 0, radius_milli: EARTH_RADIUS_MILLI },
        style: Style::Fill { color: earth_color() },
    }
}

/// The Moon, drawn at the origin of its nested frame.
pub open spec fn moon_prim(s: StateView) -> PrimitiveView {
    PrimitiveView {
        transform: moon_frame(s),
        shape: Shape::Circle { center_x_milli: 0, center_y_milli: 0, radius_milli: MOON_RADIUS_MILLI },
        style: Style::Fill { color: white_color() },
    }
}

/// Earth's anti-sunward shadow rectangle, painted after the Moon so it
/// occludes the trailing hemisphere within Earth's local frame.
pub open spec fn earth_shadow_prim(s: StateView) -> PrimitiveView {
    PrimitiveView {
        transform: earth_frame(s),
        shape: Shape::Rect {
            x_milli: 0,
            y_milli: (-(EARTH_RADIUS_MILLI as int)) as i64,
            width_milli: (4 * (EARTH_RADIUS_MILLI as int)) as i64,
            height_milli: (2 * (EARTH_RADIUS_MILLI as int)) as i64,
        },
        style: Style::Fill { color: shadow_color() },
    }
}

/// Mars's body, drawn at the origin of Mars's local frame.
pub open spec fn mars_prim(s: StateView) -> PrimitiveView {
    PrimitiveView {
        transform: mars_frame(s),
        shape: Shape::Circle { center_x_milli: 0, center_y_milli: 0, radius_milli: MARS_RADIUS_MILLI },
        style: Style::Fill { color: mars_color() },
    }
}

/// Mars's anti-sunward shadow rectangle.
pub open spec fn mars_shadow_prim(s: StateView) -> PrimitiveView {
    PrimitiveView {
        transform: mars_frame(s),
        shape: Shape::Rect {
            x_milli: 0,
            y_milli: (-(MARS_RADIUS_MILLI as int)) as i64,
            width_milli: (4 * (MARS_RADIUS_MILLI as int)) as i64,
            height_milli: (2 * (MARS_RADIUS_MILLI as int)) as i64,
        },
        style: Style::Fill { color: shadow_color() },
    }
}

/// One frame's full primitive sequence, in paint order: background,
/// starfield, Sun, the two orbit guides, the Earth system (body, Moon,
/// shadow) and the Mars system (body, shadow).
pub open spec fn frame_spec(s: StateView) -> Seq<PrimitiveView> {
    seq![background_prim(s)] + s.stars.map(|i: int, st: Star| star_prim(st)) + seq![
        sun_prim(s),
        earth_orbit_prim(s),
        mars_orbit_prim(s),
        earth_prim(s),
        moon_prim(s),
        earth_shadow_prim(s),
        mars_prim(s),
        mars_shadow_prim(s),
    ]
}

impl State {
    /// Earth's local frame as an executable transform stack.
    fn earth_frame_exec(&self) -> (ops: Vec<TransformOp>)
        requires
            self@.start_ms <= self@.current_ms,
        ensures
            ops@ == earth_frame(self@),
    {
        let e: u64 = self.elapsed_ms();
        let mut ops: Vec<TransformOp> = Vec::new();
        ops.push(TransformOp::Translate {
            dx_milli: (self.width as i64) * 500,
            dy_milli: (self.height as i64) * 500,
        });
        ops.push(TransformOp::Rotate { num: earth_phase(e), denom: EARTH_PERIOD_MS });
        ops.push(TransformOp::Translate { dx_milli: EARTH_ORBIT_RADIUS_MILLI, dy_milli: 0 });
        proof {
            assert(ops@ =~= earth_frame(self@));
        }
        ops
    }

    /// The Moon's nested frame as an executable transform stack.
    fn moon_frame_exec(&self) -> (ops: Vec<TransformOp>)
        requires
            self@.start_ms <= self@.current_ms,
        ensures
            ops@ == moon_frame(self@),
    {
        let e: u64 = self.elapsed_ms();
        let mut ops: Vec<TransformOp> = self.earth_frame_exec();
        ops.push(TransformOp::Rotate { num: moon_phase(e), denom: MOON_PERIOD_MS });
        ops.push(TransformOp::Translate { dx_milli: 0, dy_milli: MOON_DISTANCE_MILLI });
        proof {
            assert(ops@ =~= moon_frame(self@));
        }
        ops
    }

    /// Mars's local frame as an executable transform stack.
    fn mars_frame_exec(&self) -> (ops: Vec<TransformOp>)
        requires
            self@.start_ms <= self@.current_ms,
        ensures
            ops@ == mars_frame(self@),
    {
        let e: u64 = self.elapsed_ms();
        let mut ops: Vec<TransformOp> = Vec::new();
        ops.push(TransformOp::Translate {
            dx_milli: (self.width as i64) * 500,
            dy_milli: (self.height as i64) * 500,
        });
        ops.push(TransformOp::Rotate { num: mars_phase(e), denom: MARS_PERIOD_MS });
        ops.push(TransformOp::Translate { dx_milli: MARS_ORBIT_RADIUS_MILLI, dy_milli: 0 });
        proof {
            assert(ops@ =~= mars_frame(self@));
        }
        ops
    }

    /// Compose one frame: the full primitive sequence for the current
    /// simulation time, in paint order.
    pub fn draw(&self) -> (frame: Vec<Primitive>)
        requires
            self@.wf(),
        ensures
            prims_view(frame@) == frame_spec(self@),
    {
        let mut frame: Vec<Primitive> = Vec::new();

        // Background over the whole viewport.
        frame.push(Primitive {
            transform: Vec::new(),
            shape: Shape::Rect {
                x_milli: 0,
                y_milli: 0,
                width_milli: (self.width as i64) * 1000,
                height_milli: (self.height as i64) * 1000,
            },
            style: Style::Fill { color: Color { red: 0, green: 0, blue: 0, alpha_milli: 1000 } },
        });
        proof {
            assert(frame@[0]@.transform =~= background_prim(self@).transform);
        }

        // The starfield, in generation order.
        let mut i: usize = 0;
        while i < self.stars.len()
            invariant
                i <= self.stars.len(),
                frame@.len() == 1 + i,
                frame@[0]@ == background_prim(self@),
                forall|j: int| 0 <= j < i ==> frame@[1 + j]@ == star_prim(self@.stars[j]),
            decreases self.stars.len() - i,
        {
            let st = self.stars[i];
            frame.push(Primitive {
                transform: Vec::new(),
                shape: Shape::Rect {
                    x_milli: st.x_milli as i64,
                    y_milli: st.y_milli as i64,
                    width_milli: st.size_milli as i64,
                    height_milli: st.size_milli as i64,
                },
                style: Style::Fill {
                    color: Color { red: 255, green: 255, blue: 255, alpha_milli: 1000 },
                },
            });
            proof {
                assert(frame@[1 + i as int]@.transform =~= star_prim(self@.stars[i as int]).transform);
            }
            i = i + 1;
        }

        // Sun and the two orbit guides at the scene centre.
        let cx: i64 = (self.width as i64) * 500;
        let cy: i64 = (self.height as i64) * 500;
        frame.push(Primitive {
            transform: Vec::new(),
            shape: Shape::Circle { center_x_milli: cx, center_y_milli: cy, radius_milli: SUN_RADIUS_MILLI },
            style: Style::Fill {
                color: Color { red: 0xF9, green: 0xD7, blue: 0x1C, alpha_milli: 1000 },
            },
        });
        proof {
            assert(frame@[frame@.len() - 1]@.transform =~= sun_prim(self@).transform);
        }
        frame.push(Primitive {
            transform: Vec::new(),
            shape: Shape::Circle {
                center_x_milli: cx,
                center_y_milli: cy,
                radius_milli: EARTH_ORBIT_RADIUS_MILLI,
            },
            style: Style::Stroke {
                color: Color { red: 0, green: 153, blue: 255, alpha_milli: 100 },
                width_milli: 1000,
            },
        });
        proof {
            assert(frame@[frame@.len() - 1]@.transform =~= earth_orbit_prim(self@).transform);
        }
        frame.push(Primitive {
            transform: Vec::new(),
            shape: Shape::Circle {
                center_x_milli: cx,
                center_y_milli: cy,
                radius_milli: MARS_ORBIT_RADIUS_MILLI,
            },
            style: Style::Stroke {
                color: Color { red: 193, green: 68, blue: 14, alpha_milli: 100 },
                width_milli: 1000,
            },
        });
        proof {
            assert(frame@[frame@.len() - 1]@.transform =~= mars_orbit_prim(self@).transform);
        }

        // The Earth system: body, then the nested Moon, then the shadow
        // last so it occludes the trailing hemisphere.
        frame.push(Primitive {
            transform: self.earth_frame_exec(),
            shape: Shape::Circle { center_x_milli: 0, center_y_milli: 0, radius_milli: EARTH_RADIUS_MILLI },
            style: Style::Fill {
                color: Color { red: 0x6B, green: 0x93, blue: 0xD6, alpha_milli: 1000 },
            },
        });
        frame.push(Primitive {
            transform: self.moon_frame_exec(),
            shape: Shape::Circle { center_x_milli: 0, center_y_milli: 0, radius_milli: MOON_RADIUS_MILLI },
            style: Style::Fill {
                color: Color { red: 255, green: 255, blue: 255, alpha_milli: 1000 },
            },
        });
        frame.push(Primitive {
            transform: self.earth_frame_exec(),
            shape: Shape::Rect {
                x_milli: 0,
                y_milli: -EARTH_RADIUS_MILLI,
                width_milli: 4 * EARTH_RADIUS_MILLI,
                height_milli: 2 * EARTH_RADIUS_MILLI,
            },
            style: Style::Fill { color: Color { red: 0, green: 0, blue: 0, alpha_milli: 700 } },
        });

        // The Mars system: body, then the shadow; no satellite is drawn.
        frame.push(Primitive {
            transform: self.mars_frame_exec(),
            shape: Shape::Circle { center_x_milli: 0, center_y_milli: 0, radius_milli: MARS_RADIUS_MILLI },
            style: Style::Fill { color: Color { red: 193, green: 68, blue: 14, alpha_milli: 1000 } },
        });
        frame.push(Primitive {
            transform: self.mars_frame_exec(),
            shape: Shape::Rect {
                x_milli: 0,
                y_milli: -MARS_RADIUS_MILLI,
                width_milli: 4 * MARS_RADIUS_MILLI,
                height_milli: 2 * MARS_RADIUS_MILLI,
            },
            style: Style::Fill { color: Color { red: 0, green: 0, blue: 0, alpha_milli: 700 } },
        });

        proof {
            assert(prims_view(frame@) =~= frame_spec(self@));
        }
        frame
    }
}

} // verus!
