//! Tank body colors.
//!
//! Each tank gets a fully saturated color from a 20-step hue wheel keyed by
//! its id. The channels are fixed-point values in `[0, 1]`; the renderer
//! converts them to whatever color type it uses.

use vstd::prelude::*;
use crate::fixed::{abs_sp, SCALE};

verus! {

/// Mathematical model of a color.
pub ghost struct RgbV {
    pub r: int,
    pub g: int,
    pub b: int,
}

/// A color as fixed-point red, green and blue channels in `[0, 1]`.
#[derive(Clone, Copy, Debug, PartialEq, Eq, Structural)]
pub struct Rgb {
    pub r: i64,
    pub g: i64,
    pub b: i64,
}

impl View for Rgb {
    type V = RgbV;

    open spec fn view(&self) -> RgbV {
        RgbV { r: self.r as int, g: self.g as int, b: self.b as int }
    }
}

/// The hue assigned to a tank id, in degrees: ids cycle through twenty hues
/// spaced 18 degrees apart.
pub open spec fn hue_of(id: u32) -> int {
    (id % 20) * 18
}

/// The triangular-wave secondary channel of the hue-to-color conversion:
/// `1 - |((hue / 60) mod 2) - 1|`, in fixed point.
pub open spec fn fold_x(hue: int) -> int {
    SCALE - abs_sp((hue * SCALE / 60) % (2 * SCALE) - SCALE)
}

/// The color of a tank id: a standard hue-to-color conversion at full
/// saturation and value, over the six 60-degree sectors of the wheel.
pub open spec fn tank_color_spec(id: u32) -> RgbV {
    let h = hue_of(id);
    let x = fold_x(h);
    if h < 60 {
        RgbV { r: SCALE as int, g: x, b: 0 }
    } else if h < 120 {
        RgbV { r: x, g: SCALE as int, b: 0 }
    } else if h < 180 {
        RgbV { r: 0, g: SCALE as int, b: x }
    } else if h < 240 {
        RgbV { r: 0, g: x, b: SCALE as int }
    } else if h < 300 {
        RgbV { r: x, g: 0, b: SCALE as int }
    } else {
        RgbV { r: SCALE as int, g: 0, b: x }
    }
}

/// The color of the tank with the given id. Every channel is a valid
/// fixed-point fraction of one.
pub fn tank_color(id: u32) -> (c: Rgb)
    ensures
        c@ == tank_color_spec(id),
        0 <= c.r <= SCALE,
        0 <= c.g <= SCALE,
        0 <= c.b <= SCALE,
{
    let hue: u64 = ((id % 20) as u64) * 18;
    let t: u64 = hue * 1_000_000 / 60;
    let t2: u64 = t % 2_000_000;
    let d: u64 = if t2 >= 1_000_000 {
        t2 - 1_000_000
    } else {
        1_000_000 - t2
    };
    let x: i64 = (1_000_000 - d) as i64;
    if hue < 60 {
        Rgb { r: SCALE, g: x, b: 0 }
    } else if hue < 120 {
        Rgb { r: x, g: SCALE, b: 0 }
    } else if hue < 180 {
        Rgb { r: 0, g: SCALE, b: x }
    } else if hue < 240 {
        Rgb { r: 0, g: x, b: SCALE }
    } else if hue < 300 {
        Rgb { r: x, g: 0, b: SCALE }
    } else {
        Rgb { r: SCALE, g: 0, b: x }
    }
}

} // verus!
