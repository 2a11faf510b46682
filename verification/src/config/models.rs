//! The configuration model: layouts, zones, brightness levels and the top-level
//! configuration.
//!
//! The touch-zone ratios are fractions in `[0.0, 1.0]` that only the touch
//! classification reads; they are kept here as the IEEE-754 bit patterns of
//! their `f32` values (`f32::to_bits`).
use vstd::prelude::*;

verus! {

/// Device identification parameters used when detecting the numpad interface.
///
/// Controls how many times the application attempts to locate the input
/// device and how long it waits between retries.
#[derive(Clone, Copy, PartialEq, Eq, Structural, Debug)]
pub struct Identify {
    /// Maximum number of attempts to identify the device interface before giving up.
    pub max_attempts: u32,
    /// Delay in milliseconds between consecutive identification attempts on failure.
    pub retry_delay_ms: u32,
}

/// The three backlight brightness levels of the numpad: raw values written to
/// the brightness control interface of the device.
#[derive(Clone, Copy, PartialEq, Eq, Structural, Debug)]
pub struct BrightnessLevels {
    /// Low brightness level.
    pub low: u8,
    /// Medium brightness level.
    pub med: u8,
    /// High brightness level.
    pub high: u8,
}

/// A rectangular touch zone, in normalized coordinate ratios of the
/// touchpad's physical dimensions. Each field holds the bit pattern of an
/// `f32` ratio (`f32::to_bits`).
///
/// A touch falls within the zone if `x_min <= x <= x_max` and
/// `y_min <= y <= y_max`, each bound scaled by the touchpad's maximum.
#[derive(Clone, Copy, PartialEq, Eq, Structural, Debug)]
pub struct Zone {
    /// Minimum X ratio (left edge).
    pub x_min: u32,
    /// Maximum X ratio (right edge).
    pub x_max: u32,
    /// Minimum Y ratio (top edge).
    pub y_min: u32,
    /// Maximum Y ratio (bottom edge).
    pub y_max: u32,
}

/// The special touch zones outside the main key grid.
#[derive(Clone, Copy, PartialEq, Eq, Structural, Debug)]
pub struct Zones {
    /// Touch zone for the Num Lock button (top-right corner of the touchpad).
    pub numlock: Zone,
    /// Touch zone for the brightness/calculator button (top-left corner).
    pub brightness_calculator: Zone,
}

/// Describes the physical layout and key mapping of a numpad touchpad.
///
/// `keymap` is a row-major grid of key names (e.g. `"KEY_KP7"`), each the
/// name of an `evdev::KeyCode` constant. A key name may appear more than once
/// (e.g. a wide `0` key spanning two cells).
#[derive(Debug)]
pub struct Layout {
    /// Unique name identifying this layout (e.g. `"ux433fa"`, `"gx701"`).
    pub name: String,
    /// Number of columns in the key grid.
    pub cols: u8,
    /// Number of rows in the key grid.
    pub rows: u8,
    /// Touch zones for the special buttons outside the main key grid.
    pub zones: Zones,
    /// Delay in milliseconds for double-tap activation (0 = disabled).
    pub double_tap_delay_ms: u32,
    /// Whether the calculator can be launched from the top-left zone while
    /// Num Lock is off.
    pub allow_calculator: bool,
    /// Row offset subtracted when computing the key row from a touch Y
    /// coordinate: the bit pattern of an `f32` (`f32::to_bits`).
    pub top_offset: u32,
    /// Row-major grid of key names.
    pub keymap: Vec<Vec<String>>,
    /// Supported backlight brightness steps.
    pub brightness_levels: BrightnessLevels,
}

/// A layout as plain values.
pub struct LayoutView {
    pub name: Seq<char>,
    pub cols: u8,
    pub rows: u8,
    pub zones: Zones,
    pub double_tap_delay_ms: u32,
    pub allow_calculator: bool,
    pub top_offset: u32,
    pub keymap: Seq<Seq<Seq<char>>>,
    pub brightness_levels: BrightnessLevels,
}

impl View for Layout {
    type V = LayoutView;

    open spec fn view(&self) -> LayoutView {
        LayoutView {
            name: self.name@,
            cols: self.cols,
            rows: self.rows,
            zones: self.zones,
            double_tap_delay_ms: self.double_tap_delay_ms,
            allow_calculator: self.allow_calculator,
            top_offset: self.top_offset,
            keymap: self.keymap.deep_view(),
            brightness_levels: self.brightness_levels,
        }
    }
}

/// A copy of a grid of key names.
fn copy_keymap(k: &Vec<Vec<String>>) -> (r: Vec<Vec<String>>)
    ensures
        r.deep_view() == k.deep_view(),
{
    let mut r: Vec<Vec<String>> = Vec::new();
    let n: usize = k.len();
    for i in 0..n
        invariant
            n == k@.len(),
            r@.len() == i,
            forall|j: int| 0 <= j < i ==> #[trigger] r@[j].deep_view() == k@[j].deep_view(),
    {
        let row = &k[i];
        let mut copy: Vec<String> = Vec::new();
        let m: usize = row.len();
        for j in 0..m
            invariant
                m == row@.len(),
                copy@.len() == j,
                forall|t: int| 0 <= t < j ==> #[trigger] copy@[t]@ == row@[t]@,
        {
            copy.push(row[j].clone());
        }
        assert(copy.deep_view() =~= row.deep_view());
        r.push(copy);
    }
    assert(r.deep_view() =~= k.deep_view());
    r
}

impl Clone for Layout {
    fn clone(&self) -> (r: Self)
        ensures
            r@ == self@,
    {
        Layout {
            name: self.name.clone(),
            cols: self.cols,
            rows: self.rows,
            zones: self.zones,
            double_tap_delay_ms: self.double_tap_delay_ms,
            allow_calculator: self.allow_calculator,
            top_offset: self.top_offset,
            keymap: copy_keymap(&self.keymap),
            brightness_levels: self.brightness_levels,
        }
    }
}

/// Top-level application configuration.
///
/// `layout_name` must match the `name` of one entry in `layouts`, or be
/// `auto`, in which case the board name from `/sys/class/dmi/id/board_name`
/// selects the layout; [`Config::validate`] enforces this.
#[derive(Debug)]
pub struct Config {
    /// Minimum log level to emit: `"debug"`, `"info"`, `"warn"` or `"error"`.
    pub log_level: String,
    /// Device identification parameters.
    pub identify: Identify,
    /// Name of the layout to activate on startup, or `auto`.
    pub layout_name: String,
    /// Full list of available numpad layouts.
    pub layouts: Vec<Layout>,
}

/// A configuration as plain values.
pub struct ConfigView {
    pub log_level: Seq<char>,
    pub identify: Identify,
    pub layout_name: Seq<char>,
    pub layouts: Seq<LayoutView>,
}

/// The plain-value views of a list of layouts.
pub open spec fn layout_views(v: Seq<Layout>) -> Seq<LayoutView> {
    v.map_values(|l: Layout| l@)
}

impl View for Config {
    type V = ConfigView;

    open spec fn view(&self) -> ConfigView {
        ConfigView {
            log_level: self.log_level@,
            identify: self.identify,
            layout_name: self.layout_name@,
            layouts: layout_views(self.layouts@),
        }
    }
}

} // verus!
