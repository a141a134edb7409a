use solar_system::cache::Cache;
use solar_system::canvas_state::{generate_stars, State, STAR_COUNT};
use solar_system::phase::earth_phase;
use solar_system::primitives::{Color, Primitive, Shape, Style, TransformOp};
use solar_system::solar_system::{Message, SolarSystem};

fn opaque_black() -> Color {
    Color { red: 0, green: 0, blue: 0, alpha_milli: 1000 }
}

fn opaque_white() -> Color {
    Color { red: 255, green: 255, blue: 255, alpha_milli: 1000 }
}

#[test]
fn starfield_has_fixed_cardinality_and_bounds() {
    let stars = generate_stars(1024, 840);
    assert_eq!(stars.len(), STAR_COUNT);
    assert_eq!(stars.len(), 100);
    for st in &stars {
        assert!(st.x_milli < 1024 * 1000);
        assert!(st.y_milli < 840 * 1000);
        assert!(st.size_milli >= 500);
        assert!(st.size_milli < 1000);
    }
}

#[test]
fn starfield_bounds_hold_for_a_tiny_viewport() {
    let stars = generate_stars(1, 2);
    assert_eq!(stars.len(), 100);
    for st in &stars {
        assert!(st.x_milli < 1000);
        assert!(st.y_milli < 2000);
    }
}

#[test]
fn zero_viewport_clamps_stars_to_the_origin() {
    let stars = generate_stars(0, 0);
    assert_eq!(stars.len(), 100);
    for st in &stars {
        assert_eq!(st.x_milli, 0);
        assert_eq!(st.y_milli, 0);
        assert!(st.size_milli >= 500 && st.size_milli < 1000);
    }
}

#[test]
fn first_frame_opens_with_background_stars_and_sun() {
    let state = State::new(1024, 840, 7_000);
    let frame = state.draw();
    assert_eq!(frame.len(), 109);

    // A full-viewport opaque black rectangle in world coordinates.
    let background = &frame[0];
    assert!(background.transform.is_empty());
    assert_eq!(
        background.shape,
        Shape::Rect { x_milli: 0, y_milli: 0, width_milli: 1_024_000, height_milli: 840_000 },
    );
    assert_eq!(background.style, Style::Fill { color: opaque_black() });

    // Exactly one hundred white star squares.
    for star in &frame[1..=100] {
        assert!(star.transform.is_empty());
        match star.shape {
            Shape::Rect { x_milli, y_milli, width_milli, height_milli } => {
                assert!((0..1_024_000).contains(&x_milli));
                assert!((0..840_000).contains(&y_milli));
                assert!((500..1000).contains(&width_milli));
                assert_eq!(width_milli, height_milli);
            }
            ref other => panic!("expected a star rectangle, got {other:?}"),
        }
        assert_eq!(star.style, Style::Fill { color: opaque_white() });
    }

    // The Sun's disk at the viewport centre, radius 70 pixels.
    let sun = &frame[101];
    assert!(sun.transform.is_empty());
    assert_eq!(
        sun.shape,
        Shape::Circle { center_x_milli: 512_000, center_y_milli: 420_000, radius_milli: 70_000 },
    );
    assert_eq!(
        sun.style,
        Style::Fill { color: Color { red: 0xF9, green: 0xD7, blue: 0x1C, alpha_milli: 1000 } },
    );
}

#[test]
fn frame_paints_orbits_and_both_planet_systems_in_order() {
    let state = State::new(1024, 840, 0);
    let frame = state.draw();

    let earth_orbit = &frame[102];
    assert_eq!(
        earth_orbit.shape,
        Shape::Circle { center_x_milli: 512_000, center_y_milli: 420_000, radius_milli: 150_000 },
    );
    assert_eq!(
        earth_orbit.style,
        Style::Stroke {
            color: Color { red: 0, green: 153, blue: 255, alpha_milli: 100 },
            width_milli: 1000,
        },
    );

    let mars_orbit = &frame[103];
    assert_eq!(
        mars_orbit.shape,
        Shape::Circle { center_x_milli: 512_000, center_y_milli: 420_000, radius_milli: 225_000 },
    );
    assert_eq!(
        mars_orbit.style,
        Style::Stroke {
            color: Color { red: 193, green: 68, blue: 14, alpha_milli: 100 },
            width_milli: 1000,
        },
    );

    // Earth's local frame at elapsed zero: centre, biased rotation, orbit.
    let earth = &frame[104];
    assert_eq!(
        earth.transform,
        vec![
            TransformOp::Translate { dx_milli: 512_000, dy_milli: 420_000 },
            TransformOp::Rotate { num: 15_956, denom: 60_000 },
            TransformOp::Translate { dx_milli: 150_000, dy_milli: 0 },
        ],
    );
    assert_eq!(
        earth.shape,
        Shape::Circle { center_x_milli: 0, center_y_milli: 0, radius_milli: 12_000 },
    );
    assert_eq!(
        earth.style,
        Style::Fill { color: Color { red: 0x6B, green: 0x93, blue: 0xD6, alpha_milli: 1000 } },
    );

    // The Moon nests inside Earth's frame with its own rotation.
    let moon = &frame[105];
    assert_eq!(moon.transform[..3], earth.transform[..]);
    assert_eq!(
        moon.transform[3..],
        [
            TransformOp::Rotate { num: 3_956, denom: 6_000 },
            TransformOp::Translate { dx_milli: 0, dy_milli: 28_000 },
        ],
    );
    assert_eq!(
        moon.shape,
        Shape::Circle { center_x_milli: 0, center_y_milli: 0, radius_milli: 4_000 },
    );
    assert_eq!(moon.style, Style::Fill { color: opaque_white() });

    // Earth's shadow is painted after the Moon, in Earth's own frame.
    let earth_shadow = &frame[106];
    assert_eq!(earth_shadow.transform, earth.transform);
    assert_eq!(
        earth_shadow.shape,
        Shape::Rect { x_milli: 0, y_milli: -12_000, width_milli: 48_000, height_milli: 24_000 },
    );
    assert_eq!(
        earth_shadow.style,
        Style::Fill { color: Color { red: 0, green: 0, blue: 0, alpha_milli: 700 } },
    );

    // Mars runs unbiased, further out, with a shadow and no moon.
    let mars = &frame[107];
    assert_eq!(
        mars.transform,
        vec![
            TransformOp::Translate { dx_milli: 512_000, dy_milli: 420_000 },
            TransformOp::Rotate { num: 0, denom: 60_000 },
            TransformOp::Translate { dx_milli: 225_000, dy_milli: 0 },
        ],
    );
    assert_eq!(
        mars.shape,
        Shape::Circle { center_x_milli: 0, center_y_milli: 0, radius_milli: 15_000 },
    );
    assert_eq!(
        mars.style,
        Style::Fill { color: Color { red: 193, green: 68, blue: 14, alpha_milli: 1000 } },
    );

    let mars_shadow = &frame[108];
    assert_eq!(mars_shadow.transform, mars.transform);
    assert_eq!(
        mars_shadow.shape,
        Shape::Rect { x_milli: 0, y_milli: -15_000, width_milli: 60_000, height_milli: 30_000 },
    );
}

fn rotation_of(prim: &Primitive) -> (u64, u64) {
    match prim.transform[1] {
        TransformOp::Rotate { num, denom } => (num, denom),
        ref other => panic!("expected a rotation, got {other:?}"),
    }
}

#[test]
fn mars_returns_after_one_orbital_period() {
    let mut state = State::new(640, 480, 500);
    let before = state.draw();
    let (num0, denom0) = rotation_of(&before[107]);
    assert_eq!((num0, denom0), (0, 60_000));

    state.update(500 + 60_000);
    let after = state.draw();
    assert_eq!(rotation_of(&after[107]), (num0, denom0));
}

#[test]
fn repeated_reads_hit_the_cache() {
    let state = State::new(320, 200, 42);
    let mut cache = Cache::new();
    assert_eq!(cache.recompute_count(), 0);

    let first = cache.with(&state);
    let second = cache.with(&state);
    assert_eq!(first, second);
    assert_eq!(cache.recompute_count(), 1);
}

#[test]
fn cleared_cache_recomputes_once_more() {
    let state = State::new(320, 200, 42);
    let mut cache = Cache::new();
    let first = cache.with(&state);
    cache.clear();
    let second = cache.with(&state);
    assert_eq!(first, second);
    assert_eq!(cache.recompute_count(), 2);
}

#[test]
fn ticks_invalidate_and_the_frame_follows_the_latest_timestamp() {
    let mut sys = SolarSystem::new(800, 600, 1_000);

    sys.update(Message::Tick(1_500));
    let frame1 = sys.view_frame();
    assert_eq!(rotation_of(&frame1[104]), (earth_phase(500), 60_000));
    assert_eq!(sys.recompute_count(), 1);

    sys.update(Message::Tick(2_500));
    let frame2 = sys.view_frame();
    assert_eq!(rotation_of(&frame2[104]), (earth_phase(1_500), 60_000));
    assert_ne!(rotation_of(&frame2[104]), rotation_of(&frame1[104]));
    assert_eq!(sys.recompute_count(), 2);
}

#[test]
fn a_read_without_a_tick_reuses_the_frame() {
    let mut sys = SolarSystem::new(800, 600, 1_000);
    let frame1 = sys.view_frame();
    let frame2 = sys.view_frame();
    assert_eq!(frame1, frame2);
    assert_eq!(sys.recompute_count(), 1);
}

#[test]
fn title_is_fixed() {
    let sys = SolarSystem::new(1024, 840, 0);
    assert_eq!(sys.title(), "Solar system");
}
