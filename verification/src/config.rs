//! Grouped configuration for the gauge.
//!
//! Real-valued options are carried in micro-units (`FP_ONE` stands for
//! 1.0), angles in milli-degrees; pixel counts stay plain integers.  The
//! defaults mirror the instrument's canonical appearance: a 270-degree
//! dial starting straight down, 11 major ticks, a needle that overshoots
//! the rim by 5%, and an inset mini dial.

use vstd::prelude::*;
use vstd::string::StringExecFns;

verus! {

/// Configuration for tick marks on the dial.
#[derive(Debug, Clone)]
pub struct TickConfig {
    pub num_ticks: usize,
    pub minor_ticks_per_interval: usize,
    pub major_length: i32,
    pub minor_length: i32,
    pub major_thickness: i64,
    pub minor_thickness: i64,
}

impl Default for TickConfig {
    fn default() -> (c: Self)
        ensures
            c.num_ticks == 11,
            c.minor_ticks_per_interval == 5,
            c.major_length == 40,
            c.minor_length == 25,
            c.major_thickness == 2_000_000,
            c.minor_thickness == 500_000,
    {
        TickConfig {
            num_ticks: 11,
            minor_ticks_per_interval: 5,
            major_length: 40,
            minor_length: 25,
            major_thickness: 2_000_000,
            minor_thickness: 500_000,
        }
    }
}

/// Configuration for the main dial's appearance.
#[derive(Debug, Clone)]
pub struct DialConfig {
    pub margin: i32,
    pub thickness: i32,
    pub numbers_font_size: i64,
    pub ticks_to_numbers_distance: i64,
}

impl Default for DialConfig {
    fn default() -> (c: Self)
        ensures
            c.margin == 45,
            c.thickness == 4,
            c.numbers_font_size == 30_000_000,
            c.ticks_to_numbers_distance == 30_000_000,
    {
        DialConfig {
            margin: 45,
            thickness: 4,
            numbers_font_size: 30_000_000,
            ticks_to_numbers_distance: 30_000_000,
        }
    }
}

/// Configuration for needle appearance and behavior.
#[derive(Debug, Clone)]
pub struct NeedleConfig {
    pub length_factor: i64,
    pub back_length: i64,
    pub width: i64,
    pub lerp_factor: i64,
}

impl Default for NeedleConfig {
    fn default() -> (c: Self)
        ensures
            c.length_factor == 1_050_000,
            c.back_length == 80_000_000,
            c.width == 4_000_000,
            c.lerp_factor == 100_000,
    {
        NeedleConfig {
            length_factor: 1_050_000,
            back_length: 80_000_000,
            width: 4_000_000,
            lerp_factor: 100_000,
        }
    }
}

/// Configuration for the digital readout display.
#[derive(Debug, Clone)]
pub struct ReadoutConfig {
    pub x_factor: i64,
    pub y_factor: i64,
    pub big_font_size: i64,
    pub small_font_size: i64,
    pub box_padding: i32,
    pub box_thickness: i64,
}

impl Default for ReadoutConfig {
    fn default() -> (c: Self)
        ensures
            c.x_factor == 690_000,
            c.y_factor == 750_000,
            c.big_font_size == 54_000_000,
            c.small_font_size == 28_000_000,
            c.box_padding == 30,
            c.box_thickness == 4_000_000,
    {
        ReadoutConfig {
            x_factor: 690_000,
            y_factor: 750_000,
            big_font_size: 54_000_000,
            small_font_size: 28_000_000,
            box_padding: 30,
            box_thickness: 4_000_000,
        }
    }
}

/// Configuration for the application window.
#[derive(Debug, Clone)]
pub struct WindowConfig {
    pub width: usize,
    pub height: usize,
    pub max_framerate: i64,
}

impl Default for WindowConfig {
    fn default() -> (c: Self)
        ensures
            c.width == 300,
            c.height == 300,
            c.max_framerate == 60_000_000,
    {
        WindowConfig { width: 300, height: 300, max_framerate: 60_000_000 }
    }
}

/// Configuration for text rendering; the font bytes themselves live with
/// the windowing collaborator.
#[derive(Debug, Clone)]
pub struct FontConfig {
    pub exclamation_mark_size: i64,
    pub dot_radius: i32,
}

impl Default for FontConfig {
    fn default() -> (c: Self)
        ensures
            c.exclamation_mark_size == 50_000_000,
            c.dot_radius == 6,
    {
        FontConfig { exclamation_mark_size: 50_000_000, dot_radius: 6 }
    }
}

/// Configuration for the curved text along the dial.
#[derive(Debug, Clone)]
pub struct CurvedTextConfig {
    pub text: String,
    pub font_size: i64,
    pub radius_offset: i64,
    pub arc_span: i64,
    pub angle: i64,
}

impl Default for CurvedTextConfig {
    fn default() -> (c: Self)
        ensures
            c.text@ == "INSTRUMENT GAUGE"@,
            c.font_size == 30_000_000,
            c.radius_offset == 15_000_000,
            c.arc_span == 41_400,
            c.angle == 270_000,
    {
        CurvedTextConfig {
            text: String::from_str("INSTRUMENT GAUGE"),
            font_size: 30_000_000,
            radius_offset: 15_000_000,
            arc_span: 41_400,
            angle: 270_000,
        }
    }
}

/// Configuration for the highlight band.
#[derive(Debug, Clone)]
pub struct HighlightBandConfig {
    pub width: i32,
    pub color: crate::Color,
    pub alpha: i64,
    pub edge_softness: i64,
}

impl Default for HighlightBandConfig {
    fn default() -> (c: Self)
        ensures
            c.width == 35,
            c.color == (crate::Color { r: 0xff, g: 0x00, b: 0x00 }),
            c.alpha == 1_000_000,
            c.edge_softness == 286,
    {
        HighlightBandConfig {
            width: 35,
            color: crate::Color { r: 0xff, g: 0x00, b: 0x00 },
            alpha: 1_000_000,
            edge_softness: 286,
        }
    }
}

/// Configuration for the secondary-needle complication (mini dial).
#[derive(Debug, Clone)]
pub struct ComplicationConfig {
    pub use_complication: bool,
    pub shift: i32,
    pub size: i64,
}

impl Default for ComplicationConfig {
    fn default() -> (c: Self)
        ensures
            c.use_complication == true,
            c.shift == 130,
            c.size == 7_000_000,
    {
        ComplicationConfig { use_complication: true, shift: 130, size: 7_000_000 }
    }
}

/// Configuration for the mini dial's ticks.
#[derive(Debug, Clone)]
pub struct MiniTickConfig {
    pub num_ticks: usize,
    pub minor_ticks_per_interval: usize,
    pub major_length: i32,
    pub minor_length: i32,
    pub major_thickness: i64,
    pub minor_thickness: i64,
}

impl MiniTickConfig {
    /// The default mini-tick configuration.
    pub fn new() -> (c: Self)
        ensures
            c.num_ticks == 5,
            c.minor_ticks_per_interval == 0,
    {
        Self::default()
    }
}

impl Default for MiniTickConfig {
    fn default() -> (c: Self)
        ensures
            c.num_ticks == 5,
            c.minor_ticks_per_interval == 0,
            c.major_length == 10,
            c.minor_length == 4,
            c.major_thickness == 2_000_000,
            c.minor_thickness == 500_000,
    {
        MiniTickConfig {
            num_ticks: 5,
            minor_ticks_per_interval: 0,
            major_length: 10,
            minor_length: 4,
            major_thickness: 2_000_000,
            minor_thickness: 500_000,
        }
    }
}

/// Configuration for the mini dial's appearance.
#[derive(Debug, Clone)]
pub struct MiniDialConfig {
    pub margin: i32,
    pub thickness: i32,
    pub numbers_font_size: i64,
    pub ticks_to_numbers_distance: i64,
    pub dot_radius: i32,
}

impl MiniDialConfig {
    /// The default mini-dial configuration.
    pub fn new() -> (c: Self)
        ensures
            c.margin == 15,
            c.thickness == 2,
    {
        Self::default()
    }
}

impl Default for MiniDialConfig {
    fn default() -> (c: Self)
        ensures
            c.margin == 15,
            c.thickness == 2,
            c.numbers_font_size == 30_000_000,
            c.ticks_to_numbers_distance == 30_000_000,
            c.dot_radius == 8,
    {
        MiniDialConfig {
            margin: 15,
            thickness: 2,
            numbers_font_size: 30_000_000,
            ticks_to_numbers_distance: 30_000_000,
            dot_radius: 8,
        }
    }
}

/// Configuration for the mini dial's needle.
#[derive(Debug, Clone)]
pub struct MiniNeedleConfig {
    pub length_factor: i64,
    pub back_length: i64,
    pub width: i64,
}

impl MiniNeedleConfig {
    /// The default mini-needle configuration.
    pub fn new() -> (c: Self)
        ensures
            c.length_factor == 1_000_000,
    {
        Self::default()
    }
}

impl Default for MiniNeedleConfig {
    fn default() -> (c: Self)
        ensures
            c.length_factor == 1_000_000,
            c.back_length == 30_000_000,
            c.width == 4_000_000,
    {
        MiniNeedleConfig { length_factor: 1_000_000, back_length: 30_000_000, width: 4_000_000 }
    }
}

/// The complete mini-dial configuration.
#[derive(Debug, Clone)]
pub struct MiniDialFullConfig {
    pub ticks: MiniTickConfig,
    pub dial: MiniDialConfig,
    pub needle: MiniNeedleConfig,
}

impl MiniDialFullConfig {
    /// The default full mini-dial configuration.
    pub fn new() -> (c: Self)
        ensures
            c.ticks.num_ticks == 5,
            c.dial.margin == 15,
    {
        Self::default()
    }
}

impl Default for MiniDialFullConfig {
    fn default() -> (c: Self)
        ensures
            c.ticks.num_ticks == 5,
            c.dial.margin == 15,
            c.needle.length_factor == 1_000_000,
    {
        MiniDialFullConfig {
            ticks: MiniTickConfig::default(),
            dial: MiniDialConfig::default(),
            needle: MiniNeedleConfig::default(),
        }
    }
}

/// The main grouped configuration struct.
#[derive(Debug, Clone)]
pub struct Config {
    pub ticks: TickConfig,
    pub dial: DialConfig,
    pub needle: NeedleConfig,
    pub readout: ReadoutConfig,
    pub window: WindowConfig,
    pub font: FontConfig,
    pub curved_text: CurvedTextConfig,
    pub highlight_band: HighlightBandConfig,
    pub complication: ComplicationConfig,
    pub mini_dial: MiniDialFullConfig,
}

impl Config {
    /// A config with the canonical default appearance.
    pub fn new() -> (c: Self)
        ensures
            c.ticks.num_ticks == 11,
            c.dial.margin == 45,
            c.window.width == 300,
            c.window.height == 300,
    {
        Self::default()
    }
}

impl Default for Config {
    fn default() -> (c: Self)
        ensures
            c.ticks.num_ticks == 11,
            c.dial.margin == 45,
            c.window.width == 300,
            c.window.height == 300,
    {
        Config {
            ticks: TickConfig::default(),
            dial: DialConfig::default(),
            needle: NeedleConfig::default(),
            readout: ReadoutConfig::default(),
            window: WindowConfig::default(),
            font: FontConfig::default(),
            curved_text: CurvedTextConfig::default(),
            highlight_band: HighlightBandConfig::default(),
            complication: ComplicationConfig::default(),
            mini_dial: MiniDialFullConfig::default(),
        }
    }
}

} // verus!
