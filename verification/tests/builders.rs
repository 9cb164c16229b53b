use gauge::canvas::Canvas;
use gauge::config::Config;
use gauge::geometry::Dial;
use gauge::instrument::{InstrumentCommand, InstrumentConfig};
use gauge::layout::{build_dial_commands, build_instrument_scene, build_needle_commands, draw_readout_box};
use gauge::anim::Needle;
use gauge::scene::{DrawCommand, Scene};
use gauge::state::AppState;
use gauge::Color;

#[test]
fn grouped_config_defaults_mirror_the_canonical_gauge() {
    let c = Config::new();
    assert_eq!(c.ticks.num_ticks, 11);
    assert_eq!(c.ticks.minor_ticks_per_interval, 5);
    assert_eq!(c.dial.margin, 45);
    assert_eq!(c.needle.length_factor, 1_050_000);
    assert_eq!(c.needle.lerp_factor, 100_000);
    assert_eq!(c.window.width, 300);
    assert_eq!(c.mini_dial.ticks.num_ticks, 5);
    assert_eq!(c.mini_dial.dial.margin, 15);
    assert_eq!(c.mini_dial.needle.length_factor, 1_000_000);
    assert_eq!(c.highlight_band.width, 35);
    assert_eq!(c.complication.shift, 130);
}

#[test]
fn grouped_dial_builder_orders_band_before_ring() {
    let cfg = Config::new();
    let icfg = InstrumentConfig::default();
    let dial = Dial::new(300, 300, &icfg);
    let mut scene = Scene::new(300, 300);
    build_dial_commands(
        &mut scene, &dial, 0, 100_000_000, (0, 0, 0),
        Some((20_000_000, 80_000_000)), &cfg,
    );
    assert!(matches!(scene.commands[0], DrawCommand::HighlightBand { .. }));
    assert!(matches!(scene.commands[1], DrawCommand::Arc { .. }));
    // Band, arc, then 11 groups of major + 5 minors + label (last short).
    assert_eq!(scene.commands.len(), 1 + 1 + 10 * 7 + 2);
}

#[test]
fn grouped_needle_builder_appends_pointer_back_and_dot() {
    let cfg = Config::new();
    let icfg = InstrumentConfig::default();
    let dial = Dial::new(300, 300, &icfg);
    let needle = Needle::new();
    let mut scene = Scene::new(300, 300);
    build_needle_commands(&mut scene, &needle, &dial, (0, 0, 0), &cfg);
    assert_eq!(scene.commands.len(), 3);
    assert!(matches!(
        scene.commands[0],
        DrawCommand::NeedleLine { tapered: true, .. }
    ));
    assert!(matches!(
        scene.commands[1],
        DrawCommand::NeedleLine { tapered: false, .. }
    ));
    assert!(matches!(
        scene.commands[2],
        DrawCommand::Circle { radius: 6, .. }
    ));
}

#[test]
fn chronograph_scene_carries_its_own_dial_and_needle() {
    let config = InstrumentConfig::default();
    let mut st = AppState::new(0, 100_000_000);
    st.update_with_commands(&vec![InstrumentCommand::SetChronograph(30_000_000)]);
    let scene = build_instrument_scene(&st, &config, 300, 300, 0);
    // No band, no primary needle, no readout: clear, main dial group,
    // curved text, then the chronograph's dial group and needle triple.
    let main_dial = 1 + 10 * 7 + 2;
    let chrono_dial = 1 + 4 * 2 + 2; // 5 ticks, no minors
    assert_eq!(scene.commands.len(), 1 + main_dial + 1 + chrono_dial + 3);
    let chrono_arc = 1 + main_dial + 1;
    if let DrawCommand::Arc { cy, r, thickness, .. } = scene.commands[chrono_arc] {
        let expect = Dial::new_chronograph(300, 300, &config);
        assert_eq!((cy, r, thickness), (expect.cy, expect.r, expect.thickness));
    } else {
        panic!("chronograph arc missing");
    }
    assert!(matches!(
        scene.commands[chrono_arc + chrono_dial],
        DrawCommand::NeedleLine { tapered: true, .. }
    ));
}

#[test]
fn readout_box_draws_four_edges() {
    let mut c = Canvas::new(120, 120);
    c.clear((0xff, 0xff, 0xff));
    draw_readout_box(&mut c, 60, 60, 80, 62, 2, 10, 2_000_000, 54_000_000, Color::new(0, 0, 0));
    // The top edge runs at y = 50 between the box's corners.
    let i = (50 * c.width + 60) * 4;
    assert_eq!(c.buffer[i], 0);
    // Far away the canvas is untouched.
    let j = (5 * c.width + 5) * 4;
    assert_eq!(c.buffer[j], 0xff);
}
