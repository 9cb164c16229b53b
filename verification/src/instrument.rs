//! The instrument's public face: a flat configuration covering every
//! geometric and visual constant of the gauge, the typed update commands,
//! and the `Instrument` value a caller feeds and shows.
//!
//! Real-valued options are micro-units (`FP_ONE` is 1.0), angles
//! milli-degrees, pixel counts plain integers.

use vstd::prelude::*;
use crate::fixed::{FP_ONE, FP_LIMIT, clamped, clamp_i64};
use crate::Color;

verus! {

/// Typed update commands for a running instrument; values in micro-units.
#[derive(Debug, Clone)]
pub enum InstrumentCommand {
    SetPrimaryNeedle(i64),
    SetSecondaryNeedle(i64),
    SetChronograph(i64),
    SetSecondaryChronograph(i64),
    SetReadout(i64),
    SetHighlightBounds(i64, i64),
    SetBothNeedles(i64, i64),
    SetAllNeedles(i64, i64, i64, i64),
    SetBothChronographs(i64, i64),
}

/// Every geometric and visual constant of the gauge, in one flat struct.
#[derive(Debug)]
pub struct InstrumentConfig {
    pub title: String,
    pub range: (i64, i64),
    pub highlight_band: Option<(i64, i64, Color)>,
    pub window_width: usize,
    pub window_height: usize,
    pub max_framerate: i64,
    pub dial_margin: i32,
    pub dial_thickness: i32,
    pub dial_numbers_font_size: i64,
    pub dial_ticks_to_numbers_distance: i64,
    pub ticks_count: usize,
    pub minor_ticks_per_interval: usize,
    pub major_tick_length: i32,
    pub minor_tick_length: i32,
    pub major_tick_thickness: i64,
    pub minor_tick_thickness: i64,
    pub needle_length_factor: i64,
    pub needle_back_length: i64,
    pub needle_width: i64,
    pub needle_lerp_factor: i64,
    pub chronograph_range: (i64, i64),
    pub chronograph_dial_shift: i32,
    pub chronograph_dial_size: i64,
    pub chronograph_ticks_count: usize,
    pub chronograph_tick_length: i32,
    pub chronograph_dial_margin: i32,
    pub chronograph_dial_thickness: i32,
    pub chronograph_needle_length_factor: i64,
    pub chronograph_needle_width: i64,
    pub chronograph_needle_back_length: i64,
    pub chronograph_dial_numbers_font_size: i64,
    pub chronograph_dial_ticks_to_numbers_distance: i64,
    pub chronograph_dial_dot_radius: i32,
    pub chronograph_minor_ticks_per_interval: usize,
    pub chronograph_minor_tick_length: i32,
    pub chronograph_major_tick_thickness: i64,
    pub chronograph_minor_tick_thickness: i64,
    pub secondary_chronograph_range: (i64, i64),
    pub secondary_chronograph_dial_shift: i32,
    pub secondary_chronograph_dial_size: i64,
    pub secondary_chronograph_ticks_count: usize,
    pub secondary_chronograph_tick_length: i32,
    pub secondary_chronograph_dial_margin: i32,
    pub secondary_chronograph_dial_thickness: i32,
    pub secondary_chronograph_needle_length_factor: i64,
    pub secondary_chronograph_needle_width: i64,
    pub secondary_chronograph_needle_back_length: i64,
    pub secondary_chronograph_dial_numbers_font_size: i64,
    pub secondary_chronograph_dial_ticks_to_numbers_distance: i64,
    pub secondary_chronograph_dial_dot_radius: i32,
    pub secondary_chronograph_minor_ticks_per_interval: usize,
    pub secondary_chronograph_minor_tick_length: i32,
    pub secondary_chronograph_major_tick_thickness: i64,
    pub secondary_chronograph_minor_tick_thickness: i64,
    pub readout_x_factor: i64,
    pub readout_y_factor: i64,
    pub readout_big_font_size: i64,
    pub readout_small_font_size: i64,
    pub readout_box_padding: i32,
    pub readout_box_thickness: i64,
    pub curved_text: String,
    pub curved_text_font_size: i64,
    pub curved_text_radius_offset: i64,
    pub curved_text_arc_span: i64,
    pub curved_text_angle: i64,
    pub primary_label: String,
    pub secondary_label: String,
    pub highlight_band_width: i32,
    pub highlight_band_color: Color,
    pub highlight_band_alpha: i64,
    pub highlight_band_edge_softness: i64,
    pub background_color: Option<Color>,
    pub text_color: Option<Color>,
    pub needle_color: Option<Color>,
    pub dial_color: Option<Color>,
    pub exclamation_mark_size: i64,
    pub dot_radius: i32,
}

impl InstrumentConfig {
    /// The bounds every layout and drawing call needs of a configuration:
    /// non-degenerate ranges and every length inside the engine's integer
    /// bands.
    pub open spec fn wf(self) -> bool {
        &&& -FP_LIMIT <= self.range.0 < self.range.1 <= FP_LIMIT
        &&& -FP_LIMIT <= self.chronograph_range.0 < self.chronograph_range.1 <= FP_LIMIT
        &&& -FP_LIMIT <= self.secondary_chronograph_range.0
            < self.secondary_chronograph_range.1 <= FP_LIMIT
        &&& 0 <= self.dial_margin <= 100_000
        &&& 0 <= self.dial_thickness <= 100_000
        &&& 2 <= self.ticks_count <= 1000
        &&& self.minor_ticks_per_interval <= 1000
        &&& 0 <= self.major_tick_length <= 100_000
        &&& 0 <= self.minor_tick_length <= 100_000
        &&& 0 <= self.major_tick_thickness <= 1_000_000_000
        &&& 0 <= self.minor_tick_thickness <= 1_000_000_000
        &&& 0 <= self.needle_length_factor <= 10_000_000
        &&& 0 <= self.needle_back_length <= 1_000_000_000
        &&& 0 <= self.needle_width <= 1_000_000_000
        &&& 0 <= self.dot_radius <= 100_000
        &&& FP_ONE <= self.chronograph_dial_size <= FP_LIMIT
        &&& -100_000 <= self.chronograph_dial_shift <= 100_000
        &&& 0 <= self.chronograph_dial_margin <= 100_000
        &&& 0 <= self.chronograph_dial_thickness <= 100_000
        &&& 2 <= self.chronograph_ticks_count <= 1000
        &&& self.chronograph_minor_ticks_per_interval <= 1000
        &&& 0 <= self.chronograph_tick_length <= 100_000
        &&& 0 <= self.chronograph_minor_tick_length <= 100_000
        &&& 0 <= self.chronograph_major_tick_thickness <= 1_000_000_000
        &&& 0 <= self.chronograph_minor_tick_thickness <= 1_000_000_000
        &&& 0 <= self.chronograph_needle_length_factor <= 10_000_000
        &&& 0 <= self.chronograph_needle_back_length <= 1_000_000_000
        &&& 0 <= self.chronograph_needle_width <= 1_000_000_000
        &&& 0 <= self.chronograph_dial_dot_radius <= 100_000
        &&& 0 <= self.chronograph_dial_numbers_font_size <= 1_000_000_000
        &&& 0 <= self.chronograph_dial_ticks_to_numbers_distance <= 1_000_000_000
        &&& FP_ONE <= self.secondary_chronograph_dial_size <= FP_LIMIT
        &&& -100_000 <= self.secondary_chronograph_dial_shift <= 100_000
        &&& 0 <= self.secondary_chronograph_dial_margin <= 100_000
        &&& 0 <= self.secondary_chronograph_dial_thickness <= 100_000
        &&& 2 <= self.secondary_chronograph_ticks_count <= 1000
        &&& self.secondary_chronograph_minor_ticks_per_interval <= 1000
        &&& 0 <= self.secondary_chronograph_tick_length <= 100_000
        &&& 0 <= self.secondary_chronograph_minor_tick_length <= 100_000
        &&& 0 <= self.secondary_chronograph_major_tick_thickness <= 1_000_000_000
        &&& 0 <= self.secondary_chronograph_minor_tick_thickness <= 1_000_000_000
        &&& 0 <= self.secondary_chronograph_needle_length_factor <= 10_000_000
        &&& 0 <= self.secondary_chronograph_needle_back_length <= 1_000_000_000
        &&& 0 <= self.secondary_chronograph_needle_width <= 1_000_000_000
        &&& 0 <= self.secondary_chronograph_dial_dot_radius <= 100_000
        &&& 0 <= self.secondary_chronograph_dial_numbers_font_size <= 1_000_000_000
        &&& 0 <= self.secondary_chronograph_dial_ticks_to_numbers_distance <= 1_000_000_000
        &&& 0 <= self.readout_x_factor <= FP_ONE
        &&& 0 <= self.readout_y_factor <= FP_ONE
        &&& 0 <= self.readout_big_font_size <= 1_000_000_000
        &&& 0 <= self.readout_small_font_size <= 1_000_000_000
        &&& 0 <= self.readout_box_padding <= 100_000
        &&& 0 <= self.readout_box_thickness <= 1_000_000_000
        &&& 0 <= self.curved_text_font_size <= 1_000_000_000
        &&& -1_000_000_000 <= self.curved_text_radius_offset <= 1_000_000_000
        &&& 0 <= self.curved_text_arc_span <= 360_000
        &&& -1_000_000_000 <= self.curved_text_angle <= 1_000_000_000
        &&& 0 <= self.highlight_band_width <= 100_000
        &&& 0 <= self.highlight_band_alpha <= FP_ONE
        &&& 1 <= self.highlight_band_edge_softness <= 360_000
        &&& 0 <= self.exclamation_mark_size <= 1_000_000_000
        &&& 0 <= self.dial_numbers_font_size <= 1_000_000_000
        &&& 0 <= self.dial_ticks_to_numbers_distance <= 1_000_000_000
    }
}

impl Default for InstrumentConfig {
    /// The canonical gauge: a 0..100 range on a 300-by-300 window, 11
    /// major ticks with 5 minors per interval, and 0..60 chronograph
    /// ranges.
    fn default() -> (c: Self)
        ensures
            c.wf(),
            c.range == (0i64, 100_000_000i64),
            c.chronograph_range == (0i64, 60_000_000i64),
            c.secondary_chronograph_range == (0i64, 60_000_000i64),
            c.window_width == 300,
            c.window_height == 300,
            c.ticks_count == 11,
            c.minor_ticks_per_interval == 5,
            c.dial_margin == 45,
            c.dial_thickness == 4,
            c.needle_lerp_factor == 100_000,
            c.highlight_band is None,
    {
        InstrumentConfig {
            title: String::new(),
            range: (0, 100_000_000),
            highlight_band: None,
            window_width: 300,
            window_height: 300,
            max_framerate: 60_000_000,
            dial_margin: 45,
            dial_thickness: 4,
            dial_numbers_font_size: 30_000_000,
            dial_ticks_to_numbers_distance: 30_000_000,
            ticks_count: 11,
            minor_ticks_per_interval: 5,
            major_tick_length: 40,
            minor_tick_length: 25,
            major_tick_thickness: 2_000_000,
            minor_tick_thickness: 500_000,
            needle_length_factor: 1_050_000,
            needle_back_length: 80_000_000,
            needle_width: 4_000_000,
            needle_lerp_factor: 100_000,
            chronograph_range: (0, 60_000_000),
            chronograph_dial_shift: 130,
            chronograph_dial_size: 7_000_000,
            chronograph_ticks_count: 5,
            chronograph_tick_length: 10,
            chronograph_dial_margin: 15,
            chronograph_dial_thickness: 2,
            chronograph_needle_length_factor: 1_000_000,
            chronograph_needle_width: 4_000_000,
            chronograph_needle_back_length: 30_000_000,
            chronograph_dial_numbers_font_size: 30_000_000,
            chronograph_dial_ticks_to_numbers_distance: 30_000_000,
            chronograph_dial_dot_radius: 8,
            chronograph_minor_ticks_per_interval: 0,
            chronograph_minor_tick_length: 4,
            chronograph_major_tick_thickness: 2_000_000,
            chronograph_minor_tick_thickness: 500_000,
            secondary_chronograph_range: (0, 60_000_000),
            secondary_chronograph_dial_shift: 90,
            secondary_chronograph_dial_size: 7_000_000,
            secondary_chronograph_ticks_count: 5,
            secondary_chronograph_tick_length: 10,
            secondary_chronograph_dial_margin: 15,
            secondary_chronograph_dial_thickness: 2,
            secondary_chronograph_needle_length_factor: 1_000_000,
            secondary_chronograph_needle_width: 4_000_000,
            secondary_chronograph_needle_back_length: 30_000_000,
            secondary_chronograph_dial_numbers_font_size: 30_000_000,
            secondary_chronograph_dial_ticks_to_numbers_distance: 30_000_000,
            secondary_chronograph_dial_dot_radius: 8,
            secondary_chronograph_minor_ticks_per_interval: 0,
            secondary_chronograph_minor_tick_length: 4,
            secondary_chronograph_major_tick_thickness: 2_000_000,
            secondary_chronograph_minor_tick_thickness: 500_000,
            readout_x_factor: 690_000,
            readout_y_factor: 750_000,
            readout_big_font_size: 54_000_000,
            readout_small_font_size: 28_000_000,
            readout_box_padding: 30,
            readout_box_thickness: 4_000_000,
            curved_text: String::new(),
            curved_text_font_size: 30_000_000,
            curved_text_radius_offset: 15_000_000,
            curved_text_arc_span: 41_400,
            curved_text_angle: 270_000,
            primary_label: String::new(),
            secondary_label: String::new(),
            highlight_band_width: 20,
            highlight_band_color: Color { r: 0xff, g: 0x00, b: 0x00 },
            highlight_band_alpha: 1_000_000,
            highlight_band_edge_softness: 286,
            background_color: None,
            text_color: None,
            needle_color: None,
            dial_color: None,
            exclamation_mark_size: 50_000_000,
            dot_radius: 6,
        }
    }
}

/// The last values a caller asserted for each instrument channel, before
/// any animation.  The clamped values drive the needles; the raw values
/// are kept beside them so the out-of-range alert can compare against
/// the range, never against a clamped position.
#[derive(Debug, Clone)]
pub struct InstrumentState {
    pub primary_value: i64,
    pub primary_raw: i64,
    pub secondary_value: Option<i64>,
    pub secondary_raw: Option<i64>,
    pub chronograph_value: Option<i64>,
    pub secondary_chronograph_value: Option<i64>,
    pub readout_value: Option<i64>,
}

/// A configured gauge holding its latest channel values.
#[derive(Debug)]
pub struct Instrument {
    pub config: InstrumentConfig,
    pub state: InstrumentState,
}

impl Instrument {
    /// A fresh instrument resting at the bottom of its range.
    pub fn new(config: InstrumentConfig) -> (r: Self)
        ensures
            r.config == config,
            r.state.primary_value == config.range.0,
            r.state.primary_raw == config.range.0,
            r.state.secondary_value is None,
            r.state.secondary_raw is None,
            r.state.chronograph_value is None,
            r.state.secondary_chronograph_value is None,
            r.state.readout_value is None,
    {
        let primary: i64 = config.range.0;
        Instrument {
            config,
            state: InstrumentState {
                primary_value: primary,
                primary_raw: primary,
                secondary_value: None,
                secondary_raw: None,
                chronograph_value: None,
                secondary_chronograph_value: None,
                readout_value: None,
            },
        }
    }

    /// Set the primary needle and the readout together, clamped into the
    /// configured range.
    pub fn set_value(&mut self, value: i64)
        requires
            old(self).config.wf(),
        ensures
            final(self).config == old(self).config,
            final(self).state.primary_value
                == clamped(value as int,
                    old(self).config.range.0 as int, old(self).config.range.1 as int),
            final(self).state.readout_value
                == Some(final(self).state.primary_value),
            final(self).state.primary_raw == value,
            final(self).state.secondary_value == old(self).state.secondary_value,
            final(self).state.secondary_raw == old(self).state.secondary_raw,
            final(self).state.chronograph_value == old(self).state.chronograph_value,
            final(self).state.secondary_chronograph_value
                == old(self).state.secondary_chronograph_value,
    {
        let clamped_value: i64 = clamp_i64(value, self.config.range.0, self.config.range.1);
        self.state.primary_value = clamped_value;
        self.state.primary_raw = value;
        self.state.readout_value = Some(clamped_value);
    }

    /// Set the primary needle alone, clamped into the configured range.
    pub fn set_primary_value(&mut self, value: i64)
        requires
            old(self).config.wf(),
        ensures
            final(self).config == old(self).config,
            final(self).state.primary_value
                == clamped(value as int,
                    old(self).config.range.0 as int, old(self).config.range.1 as int),
            final(self).state.readout_value == old(self).state.readout_value,
            final(self).state.primary_raw == value,
            final(self).state.secondary_value == old(self).state.secondary_value,
            final(self).state.secondary_raw == old(self).state.secondary_raw,
            final(self).state.chronograph_value == old(self).state.chronograph_value,
            final(self).state.secondary_chronograph_value
                == old(self).state.secondary_chronograph_value,
    {
        self.state.primary_value = clamp_i64(value, self.config.range.0, self.config.range.1);
        self.state.primary_raw = value;
    }

    /// Set the secondary needle, clamped into the configured range.
    pub fn set_secondary_value(&mut self, value: i64)
        requires
            old(self).config.wf(),
        ensures
            final(self).config == old(self).config,
            final(self).state.secondary_value
                == Some(clamped(value as int,
                    old(self).config.range.0 as int,
                    old(self).config.range.1 as int) as i64),
            final(self).state.primary_value == old(self).state.primary_value,
            final(self).state.primary_raw == old(self).state.primary_raw,
            final(self).state.secondary_raw == Some(value),
            final(self).state.readout_value == old(self).state.readout_value,
            final(self).state.chronograph_value == old(self).state.chronograph_value,
            final(self).state.secondary_chronograph_value
                == old(self).state.secondary_chronograph_value,
    {
        let clamped_value: i64 = clamp_i64(value, self.config.range.0, self.config.range.1);
        self.state.secondary_value = Some(clamped_value);
        self.state.secondary_raw = Some(value);
    }

    /// Set the chronograph needle, clamped into the chronograph range.
    pub fn set_chronograph_value(&mut self, value: i64)
        requires
            old(self).config.wf(),
        ensures
            final(self).config == old(self).config,
            final(self).state.chronograph_value
                == Some(clamped(value as int,
                    old(self).config.chronograph_range.0 as int,
                    old(self).config.chronograph_range.1 as int) as i64),
            final(self).state.primary_value == old(self).state.primary_value,
            final(self).state.secondary_value == old(self).state.secondary_value,
            final(self).state.readout_value == old(self).state.readout_value,
            final(self).state.secondary_chronograph_value
                == old(self).state.secondary_chronograph_value,
    {
        let clamped_value: i64 = clamp_i64(
            value, self.config.chronograph_range.0, self.config.chronograph_range.1);
        self.state.chronograph_value = Some(clamped_value);
    }

    /// Set the secondary chronograph needle, clamped into its range.
    pub fn set_secondary_chronograph_value(&mut self, value: i64)
        requires
            old(self).config.wf(),
        ensures
            final(self).config == old(self).config,
            final(self).state.secondary_chronograph_value
                == Some(clamped(value as int,
                    old(self).config.secondary_chronograph_range.0 as int,
                    old(self).config.secondary_chronograph_range.1 as int) as i64),
            final(self).state.primary_value == old(self).state.primary_value,
            final(self).state.secondary_value == old(self).state.secondary_value,
            final(self).state.readout_value == old(self).state.readout_value,
            final(self).state.chronograph_value == old(self).state.chronograph_value,
    {
        let clamped_value: i64 = clamp_i64(
            value,
            self.config.secondary_chronograph_range.0,
            self.config.secondary_chronograph_range.1);
        self.state.secondary_chronograph_value = Some(clamped_value);
    }
}

} // verus!
