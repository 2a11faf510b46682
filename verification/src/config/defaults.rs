//! The default configuration, with the bundled layouts.
//!
//! | Name      | Model                   | Grid    |
//! |-----------|-------------------------|---------|
//! | `g533qr`  | ASUS ROG Strix SCAR 15  | 5 × 4   |
//! | `ux433fa` | ASUS ZenBook 14         | 5 × 4   |
//! | `gx701`   | ASUS ROG Zephyrus S17   | 4 × 5   |
//!
//! Zone ratios are `f32` bit patterns (see [`crate::config::models::Zone`]):
//! `0x3f800000` is 1.0, `0x3d75c28f` 0.06, `0x3d8f5c29` 0.07, `0x3f733333`
//! 0.95, `0x3db851ec` 0.09, `0x3f4ccccd` 0.80, `0x3e75c28f` 0.24 and
//! `0x3dcccccd` 0.10.
use crate::config::parser::{find_layout, keymap_is_grid};
use crate::config::models::{
    BrightnessLevels, Config, ConfigView, Identify, Layout, LayoutView, Zone, Zones, layout_views,
};
use vstd::prelude::*;

verus! {

/// The brightness levels of every bundled layout: low 1, medium 24, high 31.
pub open spec fn default_levels() -> BrightnessLevels {
    BrightnessLevels { low: 1, med: 24, high: 31 }
}

/// The brightness/calculator zone of every bundled layout:
/// `x ∈ [0.0, 0.06]`, `y ∈ [0.0, 0.07]`.
pub open spec fn default_brightness_zone() -> Zone {
    Zone { x_min: 0, x_max: 0x3d75c28f, y_min: 0, y_max: 0x3d8f5c29 }
}

/// The Num Lock zone of `ux433fa` and `gx701`: `x ∈ [0.95, 1.0]`, `y ∈ [0.0, 0.09]`.
pub open spec fn common_numlock() -> Zone {
    Zone { x_min: 0x3f733333, x_max: 0x3f800000, y_min: 0, y_max: 0x3db851ec }
}

/// The 5 × 4 keymap of `g533qr` and `ux433fa`.
pub open spec fn keymap_5x4_names() -> Seq<Seq<Seq<char>>> {
    seq![
        seq!["KEY_KP7"@, "KEY_KP8"@, "KEY_KP9"@, "KEY_KPSLASH"@, "KEY_BACKSPACE"@],
        seq!["KEY_KP4"@, "KEY_KP5"@, "KEY_KP6"@, "KEY_KPASTERISK"@, "KEY_BACKSPACE"@],
        seq!["KEY_KP1"@, "KEY_KP2"@, "KEY_KP3"@, "KEY_KPMINUS"@, "KEY_KPENTER"@],
        seq!["KEY_KP0"@, "KEY_KP0"@, "KEY_KPDOT"@, "KEY_KPPLUS"@, "KEY_KPENTER"@],
    ]
}

/// The 4 × 5 keymap of `gx701`.
pub open spec fn keymap_gx701_names() -> Seq<Seq<Seq<char>>> {
    seq![
        seq!["KEY_CALC"@, "KEY_KPSLASH"@, "KEY_KPASTERISK"@, "KEY_KPMINUS"@],
        seq!["KEY_KP7"@, "KEY_KP8"@, "KEY_KP9"@, "KEY_KPPLUS"@],
        seq!["KEY_KP4"@, "KEY_KP5"@, "KEY_KP6"@, "KEY_KPPLUS"@],
        seq!["KEY_KP1"@, "KEY_KP2"@, "KEY_KP3"@, "KEY_KPENTER"@],
        seq!["KEY_KP0"@, "KEY_KP0"@, "KEY_KPDOT"@, "KEY_KPENTER"@],
    ]
}

/// The ASUS ROG Strix SCAR 15 layout: wide Num Lock zone `x ∈ [0.80, 1.0]`,
/// `y ∈ [0.0, 0.24]`, top offset 0.10.
pub open spec fn g533qr_view() -> LayoutView {
    LayoutView {
        name: "g533qr"@,
        cols: 5,
        rows: 4,
        zones: Zones {
            numlock: Zone { x_min: 0x3f4ccccd, x_max: 0x3f800000, y_min: 0, y_max: 0x3e75c28f },
            brightness_calculator: default_brightness_zone(),
        },
        double_tap_delay_ms: 300,
        allow_calculator: true,
        top_offset: 0x3dcccccd,
        keymap: keymap_5x4_names(),
        brightness_levels: default_levels(),
    }
}

/// The ASUS ZenBook 14 layout.
pub open spec fn ux433fa_view() -> LayoutView {
    LayoutView {
        name: "ux433fa"@,
        cols: 5,
        rows: 4,
        zones: Zones { numlock: common_numlock(), brightness_calculator: default_brightness_zone() },
        double_tap_delay_ms: 300,
        allow_calculator: true,
        top_offset: 0x3dcccccd,
        keymap: keymap_5x4_names(),
        brightness_levels: default_levels(),
    }
}

/// The ASUS ROG Zephyrus S17 layout: 4 × 5 grid with a calculator key, no
/// top offset.
pub open spec fn gx701_view() -> LayoutView {
    LayoutView {
        name: "gx701"@,
        cols: 4,
        rows: 5,
        zones: Zones { numlock: common_numlock(), brightness_calculator: default_brightness_zone() },
        double_tap_delay_ms: 300,
        allow_calculator: true,
        top_offset: 0,
        keymap: keymap_gx701_names(),
        brightness_levels: default_levels(),
    }
}

/// The default configuration: log level `info`, layout `auto`, five
/// identification attempts 100 ms apart, and the three bundled layouts.
pub open spec fn default_config_view() -> ConfigView {
    ConfigView {
        log_level: "info"@,
        identify: Identify { max_attempts: 5, retry_delay_ms: 100 },
        layout_name: "auto"@,
        layouts: seq![g533qr_view(), ux433fa_view(), gx701_view()],
    }
}

/// Every bundled layout's keymap is a `rows × cols` grid, and with the
/// default `auto` layout name the board names `g533qr`, `ux433fa` and `gx701`
/// each select their own layout.
pub proof fn law_default_layouts()
    ensures
        forall|i: int|
            0 <= i < default_config_view().layouts.len() ==> keymap_is_grid(
                #[trigger] default_config_view().layouts[i],
            ),
        default_config_view().layout_name == "auto"@,
        find_layout(default_config_view().layouts, "g533qr"@, 0) == Some(0int),
        find_layout(default_config_view().layouts, "ux433fa"@, 0) == Some(1int),
        find_layout(default_config_view().layouts, "gx701"@, 0) == Some(2int),
{
    reveal_strlit("g533qr");
    reveal_strlit("ux433fa");
    reveal_strlit("gx701");
    let ls = default_config_view().layouts;
    assert(ls[0].name.len() != "ux433fa"@.len());
    assert(ls[0].name.len() != "gx701"@.len());
    assert(ls[1].name.len() != "gx701"@.len());
    assert(find_layout(ls, "ux433fa"@, 1) == Some(1int));
    assert(find_layout(ls, "gx701"@, 2) == Some(2int));
    assert(find_layout(ls, "gx701"@, 1) == Some(2int));
    assert(keymap_is_grid(ls[0]));
    assert(keymap_is_grid(ls[1]));
    assert(keymap_is_grid(ls[2]));
}

/// The bundled keymaps are in numpad order: on the 5 × 4 layouts (`g533qr`,
/// `ux433fa`) the top row is 7 8 9 / ⌫, the second 4 5 6 * ⌫, the third
/// 1 2 3 - ⏎ and the bottom 0 0 . + ⏎; on `gx701` a calculator row over
/// 7 8 9 +, 4 5 6 +, 1 2 3 ⏎ and 0 0 . ⏎.
pub proof fn law_bundled_keymaps_in_numpad_order()
    ensures
        forall|i: int|
            0 <= i < 2 ==> {
                let km = #[trigger] default_config_view().layouts[i].keymap;
                &&& km.len() == 4
                &&& km[0] == seq![
                    "KEY_KP7"@,
                    "KEY_KP8"@,
                    "KEY_KP9"@,
                    "KEY_KPSLASH"@,
                    "KEY_BACKSPACE"@,
                ]
                &&& km[1] == seq![
                    "KEY_KP4"@,
                    "KEY_KP5"@,
                    "KEY_KP6"@,
                    "KEY_KPASTERISK"@,
                    "KEY_BACKSPACE"@,
                ]
                &&& km[2] == seq![
                    "KEY_KP1"@,
                    "KEY_KP2"@,
                    "KEY_KP3"@,
                    "KEY_KPMINUS"@,
                    "KEY_KPENTER"@,
                ]
                &&& km[3] == seq!["KEY_KP0"@, "KEY_KP0"@, "KEY_KPDOT"@, "KEY_KPPLUS"@, "KEY_KPENTER"@]
            },
        default_config_view().layouts[0].name == "g533qr"@,
        default_config_view().layouts[1].name == "ux433fa"@,
        default_config_view().layouts[2].name == "gx701"@,
        default_config_view().layouts[2].keymap == seq![
            seq!["KEY_CALC"@, "KEY_KPSLASH"@, "KEY_KPASTERISK"@, "KEY_KPMINUS"@],
            seq!["KEY_KP7"@, "KEY_KP8"@, "KEY_KP9"@, "KEY_KPPLUS"@],
            seq!["KEY_KP4"@, "KEY_KP5"@, "KEY_KP6"@, "KEY_KPPLUS"@],
            seq!["KEY_KP1"@, "KEY_KP2"@, "KEY_KP3"@, "KEY_KPENTER"@],
            seq!["KEY_KP0"@, "KEY_KP0"@, "KEY_KPDOT"@, "KEY_KPENTER"@],
        ],
{
    assert(default_config_view().layouts[0].keymap == keymap_5x4_names());
    assert(default_config_view().layouts[1].keymap == keymap_5x4_names());
}

/// Builds the default application configuration, populated with the known
/// ASUS laptop numpad layouts.
pub struct DefaultConfig;

fn key_row4(a: &str, b: &str, c: &str, d: &str) -> (r: Vec<String>)
    ensures
        r.deep_view() == seq![a@, b@, c@, d@],
{
    let mut r: Vec<String> = Vec::new();
    r.push(String::from_str(a));
    r.push(String::from_str(b));
    r.push(String::from_str(c));
    r.push(String::from_str(d));
    assert(r.deep_view() =~= seq![a@, b@, c@, d@]);
    r
}

fn key_row5(a: &str, b: &str, c: &str, d: &str, e: &str) -> (r: Vec<String>)
    ensures
        r.deep_view() == seq![a@, b@, c@, d@, e@],
{
    let mut r: Vec<String> = Vec::new();
    r.push(String::from_str(a));
    r.push(String::from_str(b));
    r.push(String::from_str(c));
    r.push(String::from_str(d));
    r.push(String::from_str(e));
    assert(r.deep_view() =~= seq![a@, b@, c@, d@, e@]);
    r
}

impl DefaultConfig {
    /// The default configuration: `log_level` `"info"`, `layout_name`
    /// `"auto"` (the board name picks the layout), and the bundled layouts.
    pub fn config() -> (c: Config)
        ensures
            c@ == default_config_view(),
    {
        let mut layouts: Vec<Layout> = Vec::new();
        layouts.push(Self::layout_g533qr());
        layouts.push(Self::layout_ux433fa());
        layouts.push(Self::layout_gx701());
        assert(layout_views(layouts@) =~= seq![g533qr_view(), ux433fa_view(), gx701_view()]);
        Config {
            log_level: String::from_str("info"),
            layout_name: String::from_str("auto"),
            identify: Identify { max_attempts: 5, retry_delay_ms: 100 },
            layouts,
        }
    }

    /// The brightness levels used by every bundled layout.
    fn default_brightness_levels() -> (l: BrightnessLevels)
        ensures
            l == default_levels(),
    {
        BrightnessLevels { low: 1, med: 24, high: 31 }
    }

    /// The touch zone used to cycle brightness on every bundled layout.
    fn default_brightness_calculator_zone() -> (z: Zone)
        ensures
            z == default_brightness_zone(),
    {
        Zone { x_min: 0, x_max: 0x3d75c28f, y_min: 0, y_max: 0x3d8f5c29 }
    }

    /// The Num Lock zone shared by `ux433fa` and `gx701`.
    fn common_numlock_zone() -> (z: Zone)
        ensures
            z == common_numlock(),
    {
        Zone { x_min: 0x3f733333, x_max: 0x3f800000, y_min: 0, y_max: 0x3db851ec }
    }

    /// The 5 × 4 keymap shared by the `g533qr` and `ux433fa` layouts.
    fn keymap_5x4() -> (k: Vec<Vec<String>>)
        ensures
            k.deep_view() == keymap_5x4_names(),
    {
        let mut k: Vec<Vec<String>> = Vec::new();
        k.push(key_row5("KEY_KP7", "KEY_KP8", "KEY_KP9", "KEY_KPSLASH", "KEY_BACKSPACE"));
        k.push(key_row5("KEY_KP4", "KEY_KP5", "KEY_KP6", "KEY_KPASTERISK", "KEY_BACKSPACE"));
        k.push(key_row5("KEY_KP1", "KEY_KP2", "KEY_KP3", "KEY_KPMINUS", "KEY_KPENTER"));
        k.push(key_row5("KEY_KP0", "KEY_KP0", "KEY_KPDOT", "KEY_KPPLUS", "KEY_KPENTER"));
        assert(k.deep_view() =~= keymap_5x4_names());
        k
    }

    /// The layout for the ASUS ROG Strix SCAR 15 (`g533qr`).
    fn layout_g533qr() -> (l: Layout)
        ensures
            l@ == g533qr_view(),
    {
        Layout {
            name: String::from_str("g533qr"),
            cols: 5,
            rows: 4,
            zones: Zones {
                numlock: Zone { x_min: 0x3f4ccccd, x_max: 0x3f800000, y_min: 0, y_max: 0x3e75c28f },
                brightness_calculator: Self::default_brightness_calculator_zone(),
            },
            double_tap_delay_ms: 300,
            allow_calculator: true,
            top_offset: 0x3dcccccd,
            keymap: Self::keymap_5x4(),
            brightness_levels: Self::default_brightness_levels(),
        }
    }

    /// The layout for the ASUS ZenBook 14 (`ux433fa`).
    fn layout_ux433fa() -> (l: Layout)
        ensures
            l@ == ux433fa_view(),
    {
        Layout {
            name: String::from_str("ux433fa"),
            cols: 5,
            rows: 4,
            zones: Zones {
                numlock: Self::common_numlock_zone(),
                brightness_calculator: Self::default_brightness_calculator_zone(),
            },
            double_tap_delay_ms: 300,
            allow_calculator: true,
            top_offset: 0x3dcccccd,
            keymap: Self::keymap_5x4(),
            brightness_levels: Self::default_brightness_levels(),
        }
    }

    /// The layout for the ASUS ROG Zephyrus S17 (`gx701`).
    fn layout_gx701() -> (l: Layout)
        ensures
            l@ == gx701_view(),
    {
        let mut k: Vec<Vec<String>> = Vec::new();
        k.push(key_row4("KEY_CALC", "KEY_KPSLASH", "KEY_KPASTERISK", "KEY_KPMINUS"));
        k.push(key_row4("KEY_KP7", "KEY_KP8", "KEY_KP9", "KEY_KPPLUS"));
        k.push(key_row4("KEY_KP4", "KEY_KP5", "KEY_KP6", "KEY_KPPLUS"));
        k.push(key_row4("KEY_KP1", "KEY_KP2", "KEY_KP3", "KEY_KPENTER"));
        k.push(key_row4("KEY_KP0", "KEY_KP0", "KEY_KPDOT", "KEY_KPENTER"));
        assert(k.deep_view() =~= keymap_gx701_names());
        Layout {
            name: String::from_str("gx701"),
            cols: 4,
            rows: 5,
            zones: Zones {
                numlock: Self::common_numlock_zone(),
                brightness_calculator: Self::default_brightness_calculator_zone(),
            },
            double_tap_delay_ms: 300,
            allow_calculator: true,
            top_offset: 0,
            keymap: k,
            brightness_levels: Self::default_brightness_levels(),
        }
    }
}

} // verus!
