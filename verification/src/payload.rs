//! Configuration payload for the lights.

use vstd::prelude::*;
use crate::types::Brightness;
use crate::types::Color;
use crate::types::ColorRGBW;
use crate::types::ColorRGBWW;
use crate::types::FanDirection;
use crate::types::FanMode;
use crate::types::FanSpeed;
use crate::types::FanState;
use crate::types::HueSaturation;
use crate::types::Kelvin;
use crate::types::Ratio;
use crate::types::SceneMode;
use crate::types::Speed;
use crate::types::White;
use crate::types::hue_saturation::spec_hs_color;

verus! {

/// A configuration payload to send to the lights.
///
/// Payloads can contain multiple lighting attributes (color, brightness,
/// scene, etc.) that will be applied to the bulb in a single command. Each
/// field carries the raw wire value under the protocol's name for it.
#[derive(Debug, Clone, Copy)]
pub struct Payload {
    /// Scene ID, sent as `sceneId`.
    pub scene: Option<u16>,
    /// Brightness percentage, sent as `dimming`.
    pub dimming: Option<u8>,
    /// Animation speed percentage, sent as `speed`.
    pub speed: Option<u8>,
    /// Color temperature in Kelvin, sent as `temp`.
    pub temp: Option<u16>,
    /// Dual-head balance, sent as `ratio`.
    pub ratio: Option<u8>,
    /// Red channel, sent as `r`.
    pub red: Option<u8>,
    /// Green channel, sent as `g`.
    pub green: Option<u8>,
    /// Blue channel, sent as `b`.
    pub blue: Option<u8>,
    /// Cool white channel, sent as `c`.
    pub cool: Option<u8>,
    /// Warm white channel, sent as `w`.
    pub warm: Option<u8>,
    /// Fan power state, sent as `fanState`.
    pub fan_state: Option<u8>,
    /// Fan mode, sent as `fanMode`.
    pub fan_mode: Option<u8>,
    /// Fan speed, sent as `fanSpeed`.
    pub fan_speed: Option<u8>,
    /// Fan rotation direction, sent as `fanRevrs`.
    pub fan_reverse: Option<u8>,
}

impl Payload {
    /// The payload with no attributes set.
    pub open spec fn spec_empty() -> Payload {
        Payload {
            scene: None,
            dimming: None,
            speed: None,
            temp: None,
            ratio: None,
            red: None,
            green: None,
            blue: None,
            cool: None,
            warm: None,
            fan_state: None,
            fan_mode: None,
            fan_speed: None,
            fan_reverse: None,
        }
    }

    /// Whether the payload carries at least one lighting attribute. Speed and
    /// ratio alone do not make a payload valid, nor do fan settings; a color
    /// counts only when all three channels are set.
    pub open spec fn spec_is_valid(self) -> bool {
        self.scene is Some || self.dimming is Some || self.temp is Some || (self.red is Some
            && self.green is Some && self.blue is Some) || self.cool is Some || self.warm is Some
    }

    /// Create a new empty payload.
    ///
    /// At least one attribute must be set for the payload to be valid.
    pub fn new() -> (r: Self)
        ensures
            r == Self::spec_empty(),
    {
        Payload {
            scene: None,
            dimming: None,
            speed: None,
            temp: None,
            ratio: None,
            red: None,
            green: None,
            blue: None,
            cool: None,
            warm: None,
            fan_state: None,
            fan_mode: None,
            fan_speed: None,
            fan_reverse: None,
        }
    }

    /// Check if this payload contains at least one valid attribute.
    ///
    /// Note: Speed alone is not valid; it must be combined with a scene.
    pub fn is_valid(&self) -> (r: bool)
        ensures
            r == self.spec_is_valid(),
    {
        self.scene.is_some() || self.dimming.is_some() || self.temp.is_some() || (
        self.red.is_some() && self.green.is_some() && self.blue.is_some()) || self.cool.is_some()
            || self.warm.is_some()
    }

    /// Set the scene mode.
    pub fn scene(&mut self, scene: &SceneMode)
        ensures
            *final (self) == (Payload { scene: Some(scene.spec_id()), ..*old(self) }),
    {
        self.scene = Some(scene.id());
    }

    /// Set the brightness level.
    pub fn brightness(&mut self, brightness: &Brightness)
        ensures
            *final (self) == (Payload { dimming: Some(brightness.value), ..*old(self) }),
    {
        self.dimming = Some(brightness.value());
    }

    /// Set the animation speed.
    ///
    /// Speed is only effective when combined with a scene mode.
    pub fn speed(&mut self, speed: &Speed)
        ensures
            *final (self) == (Payload { speed: Some(speed.value), ..*old(self) }),
    {
        self.speed = Some(speed.value());
    }

    /// Set the color temperature.
    pub fn temp(&mut self, temp: &Kelvin)
        ensures
            *final (self) == (Payload { temp: Some(temp.kelvin), ..*old(self) }),
    {
        self.temp = Some(temp.kelvin());
    }

    /// Set the RGB color.
    pub fn color(&mut self, color: &Color)
        ensures
            *final (self) == (Payload {
                red: Some(color.red),
                green: Some(color.green),
                blue: Some(color.blue),
                ..*old(self)
            }),
    {
        self.red = Some(color.red());
        self.green = Some(color.green());
        self.blue = Some(color.blue());
    }

    /// Set the RGBW color (RGB + warm white).
    pub fn color_rgbw(&mut self, color: &ColorRGBW)
        ensures
            *final (self) == (Payload {
                red: Some(color.red),
                green: Some(color.green),
                blue: Some(color.blue),
                warm: Some(color.warm),
                ..*old(self)
            }),
    {
        self.red = Some(color.red);
        self.green = Some(color.green);
        self.blue = Some(color.blue);
        self.warm = Some(color.warm);
    }

    /// Set the RGBWW color (RGB + cool white + warm white).
    pub fn color_rgbww(&mut self, color: &ColorRGBWW)
        ensures
            *final (self) == (Payload {
                red: Some(color.red),
                green: Some(color.green),
                blue: Some(color.blue),
                cool: Some(color.cool),
                warm: Some(color.warm),
                ..*old(self)
            }),
    {
        self.red = Some(color.red);
        self.green = Some(color.green);
        self.blue = Some(color.blue);
        self.cool = Some(color.cool);
        self.warm = Some(color.warm);
    }

    /// Set the color using hue and saturation.
    pub fn hue_saturation(&mut self, hs: &HueSaturation)
        requires
            HueSaturation::spec_is_valid(hs.hue, hs.saturation),
        ensures
            *final (self) == (Payload {
                red: Some(spec_hs_color(hs.hue, hs.saturation).red),
                green: Some(spec_hs_color(hs.hue, hs.saturation).green),
                blue: Some(spec_hs_color(hs.hue, hs.saturation).blue),
                ..*old(self)
            }),
    {
        self.color(&hs.to_color());
    }

    /// Set the cool white intensity.
    pub fn cool(&mut self, cool: &White)
        ensures
            *final (self) == (Payload { cool: Some(cool.value), ..*old(self) }),
    {
        self.cool = Some(cool.value());
    }

    /// Set the warm white intensity.
    pub fn warm(&mut self, warm: &White)
        ensures
            *final (self) == (Payload { warm: Some(warm.value), ..*old(self) }),
    {
        self.warm = Some(warm.value());
    }

    /// Set the ratio for dual-head fixtures.
    pub fn ratio(&mut self, ratio: &Ratio)
        ensures
            *final (self) == (Payload { ratio: Some(ratio.value), ..*old(self) }),
    {
        self.ratio = Some(ratio.value());
    }

    /// Set the fan power state.
    pub fn fan_state(&mut self, state: &FanState)
        ensures
            *final (self) == (Payload { fan_state: Some(state.spec_value()), ..*old(self) }),
    {
        self.fan_state = Some(state.value());
    }

    /// Set the fan operating mode.
    pub fn fan_mode(&mut self, mode: &FanMode)
        ensures
            *final (self) == (Payload { fan_mode: Some(mode.spec_value()), ..*old(self) }),
    {
        self.fan_mode = Some(mode.value());
    }

    /// Set the fan speed.
    pub fn fan_speed(&mut self, speed: &FanSpeed)
        ensures
            *final (self) == (Payload { fan_speed: Some(speed.value), ..*old(self) }),
    {
        self.fan_speed = Some(speed.value());
    }

    /// Set the fan rotation direction.
    pub fn fan_direction(&mut self, direction: &FanDirection)
        ensures
            *final (self) == (Payload { fan_reverse: Some(direction.spec_value()), ..*old(self) }),
    {
        self.fan_reverse = Some(direction.value());
    }

    /// The RGB color of the payload, present only when all three channels
    /// are set.
    pub open spec fn spec_color(self) -> Option<Color> {
        match (self.red, self.green, self.blue) {
            (Some(r), Some(g), Some(b)) => Some(Color { red: r, green: g, blue: b }),
            _ => None,
        }
    }

    /// The RGB color carried by the payload, if all three channels are set.
    pub fn get_color(&self) -> (r: Option<Color>)
        ensures
            r == self.spec_color(),
    {
        match (self.red, self.green, self.blue) {
            (Some(r), Some(g), Some(b)) => Some(Color::rgb(r, g, b)),
            _ => None,
        }
    }
}

impl Default for Payload {
    /// The default payload is empty.
    fn default() -> (r: Self)
        ensures
            r == Payload::spec_empty(),
    {
        Payload::new()
    }
}

impl From<&SceneMode> for Payload {
    /// A payload carrying only the given scene.
    fn from(scene: &SceneMode) -> Self {
        let mut p = Payload::new();
        p.scene(scene);
        p
    }
}

impl vstd::std_specs::convert::FromSpecImpl<&SceneMode> for Payload {
    open spec fn obeys_from_spec() -> bool {
        true
    }

    open spec fn from_spec(scene: &SceneMode) -> Self {
        Payload { scene: Some(scene.spec_id()), ..Payload::spec_empty() }
    }
}

impl From<&Kelvin> for Payload {
    /// A payload carrying only the given color temperature.
    fn from(kelvin: &Kelvin) -> Self {
        let mut p = Payload::new();
        p.temp(kelvin);
        p
    }
}

impl vstd::std_specs::convert::FromSpecImpl<&Kelvin> for Payload {
    open spec fn obeys_from_spec() -> bool {
        true
    }

    open spec fn from_spec(kelvin: &Kelvin) -> Self {
        Payload { temp: Some(kelvin.kelvin), ..Payload::spec_empty() }
    }
}

impl From<&Color> for Payload {
    /// A payload carrying only the given color.
    fn from(color: &Color) -> Self {
        let mut p = Payload::new();
        p.color(color);
        p
    }
}

impl vstd::std_specs::convert::FromSpecImpl<&Color> for Payload {
    open spec fn obeys_from_spec() -> bool {
        true
    }

    open spec fn from_spec(color: &Color) -> Self {
        Payload { red: Some(color.red), green: Some(color.green), blue: Some(color.blue), ..Payload::spec_empty() }
    }
}

impl From<&Speed> for Payload {
    /// A payload carrying only the given animation speed.
    fn from(speed: &Speed) -> Self {
        let mut p = Payload::new();
        p.speed(speed);
        p
    }
}

impl vstd::std_specs::convert::FromSpecImpl<&Speed> for Payload {
    open spec fn obeys_from_spec() -> bool {
        true
    }

    open spec fn from_spec(speed: &Speed) -> Self {
        Payload { speed: Some(speed.value), ..Payload::spec_empty() }
    }
}

impl From<&Brightness> for Payload {
    /// A payload carrying only the given brightness.
    fn from(brightness: &Brightness) -> Self {
        let mut p = Payload::new();
        p.brightness(brightness);
        p
    }
}

impl vstd::std_specs::convert::FromSpecImpl<&Brightness> for Payload {
    open spec fn obeys_from_spec() -> bool {
        true
    }

    open spec fn from_spec(brightness: &Brightness) -> Self {
        Payload { dimming: Some(brightness.value), ..Payload::spec_empty() }
    }
}

} // verus!
