//! Hue and Saturation color representation.

use vstd::prelude::*;
use super::color::Color;

verus! {

/// Hue and Saturation color representation.
///
/// An alternative way to specify colors using:
/// - Hue: The color angle on the color wheel (0-360 degrees)
/// - Saturation: The intensity of the color (0-100 percent)
///
/// This is commonly used in color pickers and provides a more intuitive
/// way to select colors than RGB values.
#[derive(Debug, Clone, Copy)]
pub struct HueSaturation {
    pub hue: u16,
    pub saturation: u8,
}

/// The RGB color of a hue/saturation pair at full brightness, by exact
/// rational HSV conversion: with the hue sector `i = hue / 60` and the
/// in-sector fraction `f = (hue % 60) / 60`, the three channels are 255
/// scaled by 1, `1 - s`, `1 - s*f` or `1 - s*(1 - f)` (s = saturation/100),
/// arranged by sector, each truncated to an integer.
pub open spec fn spec_hs_color(hue: u16, saturation: u8) -> Color {
    if saturation == 0 {
        Color { red: 255u8, green: 255u8, blue: 255u8 }
    } else {
        let s = saturation as int;
        let hm = (hue as int) % 60;
        let v = 255int;
        let p = 255 * (100 - s) / 100;
        let q = 255 * (6000 - s * hm) / 6000;
        let t = 255 * (6000 - s * (60 - hm)) / 6000;
        let sector = ((hue as int) / 60) % 6;
        if sector == 0 {
            Color { red: v as u8, green: t as u8, blue: p as u8 }
        } else if sector == 1 {
            Color { red: q as u8, green: v as u8, blue: p as u8 }
        } else if sector == 2 {
            Color { red: p as u8, green: v as u8, blue: t as u8 }
        } else if sector == 3 {
            Color { red: p as u8, green: q as u8, blue: v as u8 }
        } else if sector == 4 {
            Color { red: t as u8, green: p as u8, blue: v as u8 }
        } else {
            Color { red: v as u8, green: p as u8, blue: q as u8 }
        }
    }
}

impl HueSaturation {
    pub open spec fn spec_is_valid(hue: u16, saturation: u8) -> bool {
        hue <= 360 && saturation <= 100
    }

    /// Create a new HueSaturation with the given values.
    ///
    /// # Arguments
    ///
    /// * `hue` - Hue angle in degrees (0-360)
    /// * `saturation` - Saturation percentage (0-100)
    ///
    /// Returns `None` if values are outside valid ranges.
    pub fn create(hue: u16, saturation: u8) -> (r: Option<Self>)
        ensures
            Self::spec_is_valid(hue, saturation) ==> (r matches Some(hs) && hs.hue == hue
                && hs.saturation == saturation),
            !Self::spec_is_valid(hue, saturation) ==> r is None,
    {
        if hue <= 360 && saturation <= 100 {
            Some(HueSaturation { hue, saturation })
        } else {
            None
        }
    }

    /// Get the hue value.
    pub fn hue(&self) -> (r: u16)
        ensures
            r == self.hue,
    {
        self.hue
    }

    /// Get the saturation value.
    pub fn saturation(&self) -> (r: u8)
        ensures
            r == self.saturation,
    {
        self.saturation
    }

    /// Convert to an RGB Color.
    ///
    /// Uses HSV to RGB conversion with Value fixed at 255 (max brightness).
    pub fn to_color(&self) -> (r: Color)
        requires
            Self::spec_is_valid(self.hue, self.saturation),
        ensures
            r == spec_hs_color(self.hue, self.saturation),
    {
        if self.saturation == 0 {
            return Color::rgb(255, 255, 255);
        }
        let s = self.saturation as u32;
        let hm = (self.hue as u32) % 60;
        proof {
            assert(s * hm <= 6000) by (nonlinear_arith)
                requires
                    s <= 100,
                    hm < 60,
            ;
            assert(s * (60 - hm) <= 6000) by (nonlinear_arith)
                requires
                    s <= 100,
                    0 <= hm < 60,
            ;
        }
        let v: u32 = 255;
        let p = 255 * (100 - s) / 100;
        let q = 255 * (6000 - s * hm) / 6000;
        let t = 255 * (6000 - s * (60 - hm)) / 6000;
        let sector = ((self.hue as u32) / 60) % 6;
        let (red, green, blue) = if sector == 0 {
            (v, t, p)
        } else if sector == 1 {
            (q, v, p)
        } else if sector == 2 {
            (p, v, t)
        } else if sector == 3 {
            (p, q, v)
        } else if sector == 4 {
            (t, p, v)
        } else {
            (v, p, q)
        };
        Color::rgb(red as u8, green as u8, blue as u8)
    }
}

impl Default for HueSaturation {
    /// The default is zero hue at zero saturation (white).
    fn default() -> (r: Self)
        ensures
            r.hue == 0 && r.saturation == 0,
    {
        HueSaturation { hue: 0, saturation: 0 }
    }
}

} // verus!
