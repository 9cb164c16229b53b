use gauge::canvas::Canvas;
use gauge::fixed::FP_ONE;
use gauge::geometry::Dial;
use gauge::instrument::InstrumentConfig;
use gauge::layout::build_instrument_scene;
use gauge::primitives::{
    arc_contains, band_radial, draw_circle, draw_thick_line_aa, edge_coverage,
    line_coverage, ring_radial, tapered_half_width,
};
use gauge::scene::{DrawCommand, Scene};
use gauge::state::{AppState, UpdateBatch};
use gauge::text::{calculate_text_width, RasterGlyph, RasterRun};
use gauge::Color;

fn pixel(c: &Canvas, x: usize, y: usize) -> (u8, u8, u8, u8) {
    let i = (y * c.width + x) * 4;
    (c.buffer[i], c.buffer[i + 1], c.buffer[i + 2], c.buffer[i + 3])
}

fn white_canvas(w: usize, h: usize) -> Canvas {
    let mut c = Canvas::new(w, h);
    c.clear((0xff, 0xff, 0xff));
    c
}

#[test]
fn clear_fills_every_pixel_opaque() {
    let mut c = Canvas::new(4, 3);
    c.clear((1, 2, 3));
    for y in 0..3 {
        for x in 0..4 {
            assert_eq!(pixel(&c, x, y), (1, 2, 3, 0xff));
        }
    }
}

#[test]
fn blend_zero_coverage_is_a_no_op() {
    let mut c = white_canvas(2, 2);
    let before = c.buffer.clone();
    c.blend_pixel(0, 0, Color::new(0, 0, 0), 0);
    assert_eq!(c.buffer, before);
    // Byte-for-byte even on a canvas that is not yet opaque.
    let mut fresh = Canvas::new(2, 2);
    let zeros = fresh.buffer.clone();
    fresh.blend_pixel(1, 1, Color::new(9, 9, 9), 0);
    assert_eq!(fresh.buffer, zeros);
}

#[test]
fn blend_full_coverage_overwrites_exactly() {
    let mut c = white_canvas(2, 2);
    c.blend_pixel(1, 0, Color::new(10, 20, 30), FP_ONE);
    assert_eq!(pixel(&c, 1, 0), (10, 20, 30, 0xff));
    assert_eq!(pixel(&c, 0, 0), (0xff, 0xff, 0xff, 0xff));
}

#[test]
fn blend_out_of_bounds_changes_nothing() {
    let mut c = white_canvas(2, 2);
    let before = c.buffer.clone();
    c.blend_pixel(2, 0, Color::new(0, 0, 0), FP_ONE);
    c.blend_pixel(0, 5, Color::new(0, 0, 0), FP_ONE);
    assert_eq!(c.buffer, before);
}

#[test]
fn blend_half_coverage_mixes_channels() {
    let mut c = white_canvas(1, 1);
    c.blend_pixel(0, 0, Color::new(0, 0, 0), 500_000);
    // 0 * 0.5 + 255 * 0.5, truncated.
    assert_eq!(pixel(&c, 0, 0), (127, 127, 127, 0xff));
}

#[test]
fn coverage_is_full_on_the_centerline_and_monotone() {
    let hw = 2_000_000;
    assert_eq!(edge_coverage(0, hw), FP_ONE);
    assert_eq!(edge_coverage(hw, hw), FP_ONE);
    let mut last = FP_ONE;
    for step in 0..30 {
        let cov = edge_coverage(hw + step * 100_000, hw);
        assert!(cov <= last, "coverage grew with distance");
        last = cov;
    }
    assert_eq!(edge_coverage(hw + FP_ONE, hw), 0);
}

#[test]
fn taper_law_half_width() {
    let th = 4_000_000;
    // At the base the tapered line is as wide as the plain one.
    assert_eq!(tapered_half_width(th, 0), th / 2);
    // At the tip 95% of the thickness is gone but it never vanishes.
    assert_eq!(tapered_half_width(th, FP_ONE), th / 40);
    let mut last = th / 2;
    for s in 1..=10 {
        let hw = tapered_half_width(th, s * 100_000);
        assert!(hw < last);
        assert!(hw > 0);
        last = hw;
    }
}

#[test]
fn arc_wraparound_membership() {
    // An arc from 350 degrees spanning 20 degrees crosses the seam.
    assert!(arc_contains(5_000, 350_000, 10_000));
    assert!(arc_contains(355_000, 350_000, 10_000));
    assert!(!arc_contains(340_000, 350_000, 10_000));
    assert!(!arc_contains(180_000, 350_000, 10_000));
    // Coincident bounds describe an empty arc.
    assert!(!arc_contains(0, 90_000, 90_000));
}

#[test]
fn ring_coverage_fades_at_both_rims() {
    let r = 10 * FP_ONE;
    let th = 2 * FP_ONE;
    assert_eq!(ring_radial(r, r, th), FP_ONE);
    assert_eq!(ring_radial(r - th, r, th), FP_ONE);
    assert_eq!(ring_radial(r + FP_ONE, r, th), 0);
    assert_eq!(ring_radial(r - th - FP_ONE, r, th), 0);
    assert_eq!(ring_radial(r + FP_ONE / 2, r, th), FP_ONE / 2);
}

#[test]
fn band_radial_profile() {
    let inner = 5 * FP_ONE;
    let outer = 10 * FP_ONE;
    assert_eq!(band_radial(0, inner, outer), 0);
    assert_eq!(band_radial(7 * FP_ONE, inner, outer), FP_ONE);
    assert_eq!(band_radial(12 * FP_ONE, inner, outer), 0);
    assert_eq!(band_radial(inner, inner, outer), FP_ONE / 2);
}

#[test]
fn line_coverage_on_and_off_the_segment() {
    // A horizontal segment of thickness 2: the centerline is fully
    // covered, four pixels away nothing is.
    let cov_on = line_coverage(5, 0, 0, 0, 10, 0, 2_000_000, false);
    assert_eq!(cov_on, FP_ONE);
    let cov_off = line_coverage(5, 4, 0, 0, 10, 0, 2_000_000, false);
    assert_eq!(cov_off, 0);
}

#[test]
fn tapered_line_thins_toward_the_tip() {
    // One pixel off-axis: covered near the base, bare near the tip.
    let near_base = line_coverage(1, 1, 0, 0, 40, 0, 3_000_000, true);
    let near_tip = line_coverage(39, 1, 0, 0, 40, 0, 3_000_000, true);
    assert!(near_base > near_tip);
}

#[test]
fn circle_paints_center_not_corner() {
    let mut c = white_canvas(21, 21);
    draw_circle(&mut c, 10, 10, 5, Color::new(0, 0, 0));
    assert_eq!(pixel(&c, 10, 10), (0, 0, 0, 0xff));
    assert_eq!(pixel(&c, 0, 0), (0xff, 0xff, 0xff, 0xff));
    // Just inside the rim is painted, two pixels beyond is untouched.
    assert_eq!(pixel(&c, 10, 14), (0, 0, 0, 0xff));
    assert_eq!(pixel(&c, 10, 17), (0xff, 0xff, 0xff, 0xff));
}

#[test]
fn thick_line_paints_its_spine() {
    let mut c = white_canvas(20, 10);
    draw_thick_line_aa(&mut c, 2, 5, 17, 5, 2_000_000, Color::new(0, 0, 0));
    for x in 3..17 {
        assert_eq!(pixel(&c, x, 5), (0, 0, 0, 0xff), "x={x}");
    }
    assert_eq!(pixel(&c, 10, 1), (0xff, 0xff, 0xff, 0xff));
}

#[test]
fn dial_geometry_matches_the_canvas() {
    let config = InstrumentConfig::default();
    let d = Dial::new(300, 300, &config);
    assert_eq!((d.cx, d.cy, d.r), (150, 150, 105));
    assert_eq!((d.start_angle, d.arc_span), (90_000, 270_000));
    assert_eq!(d.thickness, 4);
}

#[test]
fn scene_grows_by_push_and_clears() {
    let mut s = Scene::new(10, 10);
    assert_eq!(s.commands.len(), 0);
    s.add_command(DrawCommand::Clear((0, 0, 0)));
    s.add_command(DrawCommand::Circle { cx: 1, cy: 1, radius: 1, color: (0, 0, 0) });
    assert_eq!(s.commands.len(), 2);
    s.clear();
    assert_eq!(s.commands.len(), 0);
}

#[test]
fn text_width_spreads_the_visible_boxes() {
    let glyph = |x: i32, w: usize| RasterGlyph {
        bb_min_x: x,
        bb_min_y: 0,
        width: w,
        height: 1,
        cov: vec![255; w],
        pos_x: 0,
        advance: 0,
    };
    let run = RasterRun { glyphs: vec![glyph(2, 3), glyph(8, 4)] };
    assert_eq!(calculate_text_width(&run), 10);
    let empty = RasterRun { glyphs: vec![] };
    assert_eq!(calculate_text_width(&empty), 0);
}

fn scenario_state(value: i64) -> AppState {
    let mut st = AppState::new(0, 100_000_000);
    st.update(&vec![UpdateBatch {
        needle1: Some(value),
        needle2: None,
        highlight_lower: Some(20_000_000),
        highlight_upper: Some(80_000_000),
        readout: Some(value),
    }]);
    st
}

#[test]
fn scene_lists_band_ring_ticks_needle_readout_in_order() {
    let config = InstrumentConfig::default();
    let st = scenario_state(75_000_000);
    let scene = build_instrument_scene(&st, &config, 300, 300, 40);
    // Clear, band, arc, 11 tick groups of (major + 5 minors + label)
    // except the short last one, curved text, needle triple, readout six.
    let group = 2 + config.minor_ticks_per_interval; // major + minors + label
    let dial_cmds = 1 + (config.ticks_count - 1) * group + 2;
    assert_eq!(scene.commands.len(), 1 + 1 + dial_cmds + 1 + 3 + 6);
    assert!(matches!(scene.commands[0], DrawCommand::Clear(c) if c == (0xff, 0xff, 0xff)));
    assert!(matches!(scene.commands[1], DrawCommand::HighlightBand { .. }));
    assert!(matches!(scene.commands[2], DrawCommand::Arc { .. }));
    for i in 0..config.ticks_count {
        let idx = 3 + i * group;
        assert!(
            matches!(scene.commands[idx], DrawCommand::Tick { .. }),
            "major tick {i} at {idx}"
        );
    }
    let curved = 2 + dial_cmds;
    assert!(matches!(scene.commands[curved], DrawCommand::CurvedText { .. }));
    assert!(matches!(
        scene.commands[curved + 1],
        DrawCommand::NeedleLine { tapered: true, .. }
    ));
    assert!(matches!(
        scene.commands[curved + 2],
        DrawCommand::NeedleLine { tapered: false, .. }
    ));
    assert!(matches!(scene.commands[curved + 3], DrawCommand::Circle { .. }));
    assert!(matches!(scene.commands[curved + 4], DrawCommand::Text { .. }));
}

#[test]
fn in_range_scenario_has_no_alert() {
    let config = InstrumentConfig::default();
    let mut st = scenario_state(75_000_000);
    assert_eq!(st.needle1.as_ref().unwrap().target_pos, 750_000);
    // Let the needle settle, then check its rendered angle.
    for _ in 0..200 {
        st.update(&vec![]);
    }
    let pos = st.needle1.as_ref().unwrap().pos;
    assert_eq!(pos, 750_000, "needle settles exactly on its target");
    assert!(!st.is_out_of_range());
    let scene = build_instrument_scene(&st, &config, 300, 300, 40);
    for cmd in scene.commands.iter() {
        if let DrawCommand::Text { text, .. } = cmd {
            assert_ne!(text.as_str(), "!", "alert glyph present while in range");
        }
    }
    // The needle points where start + span * 0.75 says, within tolerance:
    // 90 + 270 * 0.75 = 292.5 degrees, so the tip leans up and right.
    if let DrawCommand::NeedleLine { x0, y0, x1, y1, tapered: true, .. } =
        scene.commands[scene.commands.len() - 9]
    {
        assert!(x1 > x0, "tip points right of center");
        assert!(y1 < y0, "tip points above center");
        let dx = (x1 - x0) as f64;
        let dy = (y1 - y0) as f64;
        let angle = dy.atan2(dx).to_degrees().rem_euclid(360.0);
        assert!((angle - 292.5).abs() < 0.5, "needle angle {angle}");
    } else {
        panic!("needle command not where expected");
    }
}

#[test]
fn out_of_range_scenario_raises_the_alert() {
    let config = InstrumentConfig::default();
    let st = scenario_state(150_000_000);
    assert!(st.is_out_of_range());
    // The needle pegs at full scale while the alert fires.
    assert_eq!(st.needle1.as_ref().unwrap().target_pos, FP_ONE);
    let scene = build_instrument_scene(&st, &config, 300, 300, 40);
    let last = &scene.commands[scene.commands.len() - 1];
    if let DrawCommand::Text { text, color, .. } = last {
        assert_eq!(text.as_str(), "!");
        assert_eq!(*color, (0xff, 0x00, 0x00));
    } else {
        panic!("warning glyph missing");
    }
}

#[test]
fn readout_formats_integer_and_fraction() {
    let config = InstrumentConfig::default();
    let mut st = AppState::new(0, 100_000_000);
    st.update(&vec![UpdateBatch {
        needle1: None,
        needle2: None,
        highlight_lower: None,
        highlight_upper: None,
        readout: Some(75_500_000),
    }]);
    let scene = build_instrument_scene(&st, &config, 300, 300, 40);
    let n = scene.commands.len();
    // The readout contributes the last six commands here: int text, frac
    // text, four box edges.
    if let DrawCommand::Text { text, .. } = &scene.commands[n - 6] {
        assert_eq!(text.as_str(), "75");
    } else {
        panic!("integer text missing");
    }
    if let DrawCommand::Text { text, .. } = &scene.commands[n - 5] {
        assert_eq!(text.as_str(), "500");
    } else {
        panic!("fraction text missing");
    }
}

#[test]
fn bilinear_splat_feeds_four_neighbors() {
    let mut c = white_canvas(21, 21);
    // A full-alpha sample at the exact corner of four pixels deposits a
    // quarter of its coverage on each.
    gauge::text::draw_antialiased_pixel(
        &mut c, 10_500_000, 10_500_000, Color::new(0, 0, 0), FP_ONE);
    for (px, py) in [(10, 10), (11, 10), (10, 11), (11, 11)] {
        assert_eq!(pixel(&c, px, py), (191, 191, 191, 0xff), "({px},{py})");
    }
    assert_eq!(pixel(&c, 9, 10), (0xff, 0xff, 0xff, 0xff));
    assert_eq!(pixel(&c, 12, 11), (0xff, 0xff, 0xff, 0xff));
}

#[test]
fn blank_text_run_draws_nothing() {
    let mut c = white_canvas(8, 8);
    let before = c.buffer.clone();
    let blank = RasterRun {
        glyphs: vec![RasterGlyph {
            bb_min_x: 0,
            bb_min_y: 0,
            width: 0,
            height: 0,
            cov: Vec::new(),
            pos_x: 0,
            advance: 500_000,
        }],
    };
    gauge::text::draw_text(&mut c, 4, 4, &blank, Color::new(0, 0, 0));
    assert_eq!(c.buffer, before);
    gauge::text::draw_curved_text(
        &mut c, 4, 4, 10_000_000, &RasterRun { glyphs: vec![] }, 90_000, 0,
        Color::new(0, 0, 0));
    assert_eq!(c.buffer, before);
}

#[test]
fn render_executes_a_whole_scene() {
    let config = InstrumentConfig::default();
    let st = scenario_state(75_000_000);
    let mut canvas = Canvas::new(120, 120);
    canvas.clear((0, 0, 0));
    let runs: Vec<RasterRun> = Vec::new();
    gauge::layout::render_instrument(&mut canvas, &st, &config, 20, &runs);
    // The frame was cleared to white and the dial ring drew dark pixels
    // somewhere on the rim circle.
    assert_eq!(pixel(&canvas, 2, 2), (0xff, 0xff, 0xff, 0xff));
    let d = Dial::new(120, 120, &config);
    let rim = pixel(&canvas, d.cx as usize, (d.cy + d.r) as usize);
    assert!(rim.0 < 0xff || rim.1 < 0xff || rim.2 < 0xff, "rim untouched: {rim:?}");
}
