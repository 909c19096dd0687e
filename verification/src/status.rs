//! Light status tracking.

use vstd::prelude::*;
use crate::payload::Payload;
use crate::types::Brightness;
use crate::types::Color;
use crate::types::Kelvin;
use crate::types::PowerMode;
use crate::types::SceneMode;
use crate::types::Speed;
use crate::types::White;

verus! {

/// The last context set on the light that the API is aware of.
#[derive(Debug, Clone, Copy, PartialEq, Eq, Structural)]
pub enum LastSet {
    /// The last set context was an RGB color
    Color,
    /// The last set context was a SceneMode
    Scene,
    /// The last set context was a Kelvin temperature
    Temp,
    /// The last set context was a cool white value
    Cool,
    /// The last set context was a warm white value
    Warm,
}

impl LastSet {
    /// The context a payload sets, by priority: scene before color before
    /// temperature before cool before warm white; `None` when the payload
    /// carries none of these.
    pub open spec fn spec_from_payload(payload: Payload) -> Option<LastSet> {
        if payload.scene is Some {
            Some(LastSet::Scene)
        } else if payload.spec_color() is Some {
            Some(LastSet::Color)
        } else if payload.temp is Some {
            Some(LastSet::Temp)
        } else if payload.cool is Some {
            Some(LastSet::Cool)
        } else if payload.warm is Some {
            Some(LastSet::Warm)
        } else {
            None
        }
    }

    /// The context the given payload sets, if any.
    pub fn from_payload(payload: &Payload) -> (r: Option<Self>)
        ensures
            r == Self::spec_from_payload(*payload),
    {
        if payload.scene.is_some() {
            return Some(LastSet::Scene);
        }
        if payload.get_color().is_some() {
            return Some(LastSet::Color);
        }
        if payload.temp.is_some() {
            return Some(LastSet::Temp);
        }
        if payload.cool.is_some() {
            return Some(LastSet::Cool);
        }
        if payload.warm.is_some() {
            return Some(LastSet::Warm);
        }
        None
    }
}

/// Tracks the last known settings for a light bulb.
#[derive(Debug, Clone, Copy)]
pub struct LightStatus {
    pub color: Option<Color>,
    pub brightness: Option<Brightness>,
    pub emitting: bool,
    pub scene: Option<SceneMode>,
    pub speed: Option<Speed>,
    pub temp: Option<Kelvin>,
    pub cool: Option<White>,
    pub warm: Option<White>,
    pub last: Option<LastSet>,
}

/// The brightness a payload's raw `dimming` value denotes: values in range
/// make a brightness, others none.
pub open spec fn spec_opt_brightness(v: Option<u8>) -> Option<Brightness> {
    match v {
        Some(d) => if Brightness::spec_is_valid(d) {
            Some(Brightness { value: d })
        } else {
            None
        },
        None => None,
    }
}

/// The speed a raw wire value denotes, if in range.
pub open spec fn spec_opt_speed(v: Option<u8>) -> Option<Speed> {
    match v {
        Some(d) => if Speed::spec_is_valid(d) {
            Some(Speed { value: d })
        } else {
            None
        },
        None => None,
    }
}

/// The color temperature a raw wire value denotes, if in range.
pub open spec fn spec_opt_kelvin(v: Option<u16>) -> Option<Kelvin> {
    match v {
        Some(d) => if Kelvin::spec_is_valid(d) {
            Some(Kelvin { kelvin: d })
        } else {
            None
        },
        None => None,
    }
}

/// The white intensity a raw wire value denotes, if in range.
pub open spec fn spec_opt_white(v: Option<u8>) -> Option<White> {
    match v {
        Some(d) => if White::spec_is_valid(d) {
            Some(White { value: d })
        } else {
            None
        },
        None => None,
    }
}

/// The scene a raw wire value denotes, if it names one.
pub open spec fn spec_opt_scene(v: Option<u16>) -> Option<SceneMode> {
    match v {
        Some(d) => spec_scene_of_id(d),
        None => None,
    }
}

/// The scene a scene ID denotes, if it names one.
pub open spec fn spec_scene_of_id(d: u16) -> Option<SceneMode> {
    if SceneMode::spec_is_id(d) {
        Some(choose|s: SceneMode| #[trigger] s.spec_id() == d)
    } else {
        None
    }
}

fn opt_brightness(v: Option<u8>) -> (r: Option<Brightness>)
    ensures
        r == spec_opt_brightness(v),
{
    match v {
        Some(d) => Brightness::create(d),
        None => None,
    }
}

fn opt_speed(v: Option<u8>) -> (r: Option<Speed>)
    ensures
        r == spec_opt_speed(v),
{
    match v {
        Some(d) => Speed::create(d),
        None => None,
    }
}

fn opt_kelvin(v: Option<u16>) -> (r: Option<Kelvin>)
    ensures
        r == spec_opt_kelvin(v),
{
    match v {
        Some(d) => Kelvin::create(d),
        None => None,
    }
}

fn opt_white(v: Option<u8>) -> (r: Option<White>)
    ensures
        r == spec_opt_white(v),
{
    match v {
        Some(d) => White::create(d),
        None => None,
    }
}

fn scene_of_id(d: u16) -> (r: Option<SceneMode>)
    ensures
        r == spec_scene_of_id(d),
{
    let r = SceneMode::create(d);
    proof {
        if SceneMode::spec_is_id(d) {
            let s = r->Some_0;
            assert(s.spec_id() == d);
            let c = choose|t: SceneMode| #[trigger] t.spec_id() == d;
            assert(c.spec_id() == d && s.spec_id() == d);
            assert(c == s) by {
                crate::types::scene::lemma_scene_ids_injective(c, s);
            }
        }
    }
    r
}

fn opt_scene(v: Option<u16>) -> (r: Option<SceneMode>)
    ensures
        r == spec_opt_scene(v),
{
    match v {
        Some(d) => scene_of_id(d),
        None => None,
    }
}

impl LightStatus {
    /// The status a payload establishes on a light known to be emitting:
    /// each raw value in range is adopted, out-of-range values are dropped,
    /// and the last-set context is the payload's.
    pub open spec fn spec_from_payload(payload: Payload) -> LightStatus {
        LightStatus {
            color: payload.spec_color(),
            brightness: spec_opt_brightness(payload.dimming),
            emitting: true,
            scene: spec_opt_scene(payload.scene),
            speed: spec_opt_speed(payload.speed),
            temp: spec_opt_kelvin(payload.temp),
            cool: spec_opt_white(payload.cool),
            warm: spec_opt_white(payload.warm),
            last: LastSet::spec_from_payload(payload),
        }
    }

    /// The status after merging `other` into `self`: every attribute `other`
    /// carries overwrites the old one; attributes `other` lacks are kept;
    /// the emitting flag is always taken from `other`.
    pub open spec fn spec_update(self, other: LightStatus) -> LightStatus {
        LightStatus {
            color: if other.color is Some {
                other.color
            } else {
                self.color
            },
            brightness: if other.brightness is Some {
                other.brightness
            } else {
                self.brightness
            },
            emitting: other.emitting,
            scene: other.scene,
            speed: if other.speed is Some {
                other.speed
            } else {
                self.speed
            },
            temp: if other.temp is Some {
                other.temp
            } else {
                self.temp
            },
            cool: if other.cool is Some {
                other.cool
            } else {
                self.cool
            },
            warm: if other.warm is Some {
                other.warm
            } else {
                self.warm
            },
            last: if other.last is Some {
                other.last
            } else {
                self.last
            },
        }
    }

    /// The status after applying a payload: raw values in range overwrite the
    /// corresponding attributes, and the last-set context follows the last
    /// context-bearing attribute in field order (color, then temperature,
    /// then scene, then cool, then warm white).
    pub open spec fn spec_update_from_payload(self, payload: Payload) -> LightStatus {
        LightStatus {
            color: if payload.spec_color() is Some {
                payload.spec_color()
            } else {
                self.color
            },
            brightness: if payload.dimming is Some {
                spec_opt_brightness(payload.dimming)
            } else {
                self.brightness
            },
            emitting: self.emitting,
            scene: if payload.scene is Some {
                spec_opt_scene(payload.scene)
            } else {
                self.scene
            },
            speed: if payload.speed is Some {
                spec_opt_speed(payload.speed)
            } else {
                self.speed
            },
            temp: if payload.temp is Some {
                spec_opt_kelvin(payload.temp)
            } else {
                self.temp
            },
            cool: if payload.cool is Some {
                spec_opt_white(payload.cool)
            } else {
                self.cool
            },
            warm: if payload.warm is Some {
                spec_opt_white(payload.warm)
            } else {
                self.warm
            },
            last: if payload.warm is Some {
                Some(LastSet::Warm)
            } else if payload.cool is Some {
                Some(LastSet::Cool)
            } else if payload.scene is Some {
                Some(LastSet::Scene)
            } else if payload.temp is Some {
                Some(LastSet::Temp)
            } else if payload.spec_color() is Some {
                Some(LastSet::Color)
            } else {
                self.last
            },
        }
    }

    /// Get the last set context.
    pub fn last(&self) -> (r: Option<&LastSet>)
        ensures
            r == match self.last {
                Some(l) => Some(&l),
                None => None,
            },
    {
        self.last.as_ref()
    }

    /// Get the last set color.
    pub fn color(&self) -> (r: Option<&Color>)
        ensures
            r == match self.color {
                Some(c) => Some(&c),
                None => None,
            },
    {
        self.color.as_ref()
    }

    /// Get the last set brightness.
    pub fn brightness(&self) -> (r: Option<&Brightness>)
        ensures
            r == match self.brightness {
                Some(b) => Some(&b),
                None => None,
            },
    {
        self.brightness.as_ref()
    }

    /// Check if the light is emitting.
    pub fn emitting(&self) -> (r: bool)
        ensures
            r == self.emitting,
    {
        self.emitting
    }

    /// Get the last set scene.
    pub fn scene(&self) -> (r: Option<&SceneMode>)
        ensures
            r == match self.scene {
                Some(s) => Some(&s),
                None => None,
            },
    {
        self.scene.as_ref()
    }

    /// Get the last set speed.
    pub fn speed(&self) -> (r: Option<&Speed>)
        ensures
            r == match self.speed {
                Some(s) => Some(&s),
                None => None,
            },
    {
        self.speed.as_ref()
    }

    /// Get the last set temperature.
    pub fn temp(&self) -> (r: Option<&Kelvin>)
        ensures
            r == match self.temp {
                Some(t) => Some(&t),
                None => None,
            },
    {
        self.temp.as_ref()
    }

    /// Get the last set cool white value.
    pub fn cool(&self) -> (r: Option<&White>)
        ensures
            r == match self.cool {
                Some(w) => Some(&w),
                None => None,
            },
    {
        self.cool.as_ref()
    }

    /// Get the last set warm white value.
    pub fn warm(&self) -> (r: Option<&White>)
        ensures
            r == match self.warm {
                Some(w) => Some(&w),
                None => None,
            },
    {
        self.warm.as_ref()
    }

    /// Update this status with values from another status.
    ///
    /// Values set in `other` overwrite values in `self`.
    pub fn update(&mut self, other: &Self)
        ensures
            *final (self) == old(self).spec_update(*other),
    {
        if let Some(color) = &other.color {
            self.color = Some(*color);
        }
        if let Some(brightness) = &other.brightness {
            self.brightness = Some(*brightness);
        }
        self.emitting = other.emitting;
        self.scene = other.scene;
        if let Some(speed) = &other.speed {
            self.speed = Some(*speed);
        }
        if let Some(temp) = &other.temp {
            self.temp = Some(*temp);
        }
        if let Some(cool) = &other.cool {
            self.cool = Some(*cool);
        }
        if let Some(warm) = &other.warm {
            self.warm = Some(*warm);
        }
        if let Some(last) = &other.last {
            self.last = Some(*last);
        }
    }

    /// Update this status from a payload's raw values.
    pub fn update_from_payload(&mut self, payload: &Payload)
        ensures
            *final (self) == old(self).spec_update_from_payload(*payload),
    {
        if let Some(color) = payload.get_color() {
            self.color = Some(color);
            self.last = Some(LastSet::Color);
        }
        if let Some(dimming) = payload.dimming {
            self.brightness = Brightness::create(dimming);
        }
        if let Some(speed) = payload.speed {
            self.speed = Speed::create(speed);
        }
        if let Some(temp) = payload.temp {
            self.temp = Kelvin::create(temp);
            self.last = Some(LastSet::Temp);
        }
        if let Some(scene) = payload.scene {
            self.scene = scene_of_id(scene);
            self.last = Some(LastSet::Scene);
        }
        if let Some(cool) = payload.cool {
            self.cool = White::create(cool);
            self.last = Some(LastSet::Cool);
        }
        if let Some(warm) = payload.warm {
            self.warm = White::create(warm);
            self.last = Some(LastSet::Warm);
        }
    }

    /// Update the emitting flag from a power mode: the light emits unless
    /// the mode is off.
    pub fn update_from_power(&mut self, power: &PowerMode)
        ensures
            *final (self) == (LightStatus { emitting: *power != PowerMode::Off, ..*old(self) }),
    {
        self.emitting = !matches!(power, PowerMode::Off);
    }
}

impl From<&Payload> for LightStatus {
    /// The status a freshly applied payload establishes.
    fn from(payload: &Payload) -> Self {
        LightStatus {
            color: payload.get_color(),
            brightness: opt_brightness(payload.dimming),
            emitting: true,
            scene: opt_scene(payload.scene),
            speed: opt_speed(payload.speed),
            temp: opt_kelvin(payload.temp),
            cool: opt_white(payload.cool),
            warm: opt_white(payload.warm),
            last: LastSet::from_payload(payload),
        }
    }
}

impl vstd::std_specs::convert::FromSpecImpl<&Payload> for LightStatus {
    open spec fn obeys_from_spec() -> bool {
        true
    }

    open spec fn from_spec(payload: &Payload) -> Self {
        LightStatus::spec_from_payload(*payload)
    }
}

impl From<&PowerMode> for LightStatus {
    /// A status that knows nothing but the emitting flag.
    fn from(power: &PowerMode) -> Self {
        LightStatus {
            color: None,
            brightness: None,
            emitting: !matches!(power, PowerMode::Off),
            scene: None,
            speed: None,
            temp: None,
            cool: None,
            warm: None,
            last: None,
        }
    }
}

impl vstd::std_specs::convert::FromSpecImpl<&PowerMode> for LightStatus {
    open spec fn obeys_from_spec() -> bool {
        true
    }

    open spec fn from_spec(power: &PowerMode) -> Self {
        LightStatus {
            color: None,
            brightness: None,
            emitting: *power != PowerMode::Off,
            scene: None,
            speed: None,
            temp: None,
            cool: None,
            warm: None,
            last: None,
        }
    }
}

/// Bulb status as reported by the bulb in reply to a status query, as plain
/// values: the reply's envelope fields and its `result` object.
#[derive(Debug, Clone)]
pub struct BulbStatus {
    pub env: String,
    pub method: String,
    pub result: BulbStatusResult,
}

/// The `result` object of a status reply, as plain values.
#[derive(Debug, Clone)]
pub struct BulbStatusResult {
    pub red: Option<u8>,
    pub green: Option<u8>,
    pub blue: Option<u8>,
    pub dimming: Option<u8>,
    pub mac: String,
    pub emitting: bool,
    pub scene: u16,
    pub rssi: i32,
    pub cool: Option<u8>,
    pub warm: Option<u8>,
}

impl BulbStatusResult {
    /// The RGB color of the result, present only when all three channels are
    /// reported.
    pub open spec fn spec_color(&self) -> Option<Color> {
        match (self.red, self.green, self.blue) {
            (Some(r), Some(g), Some(b)) => Some(Color { red: r, green: g, blue: b }),
            _ => None,
        }
    }

    /// The RGB color reported by the bulb, if all three channels are present.
    pub fn get_color(&self) -> (r: Option<Color>)
        ensures
            r == self.spec_color(),
    {
        match (self.red, self.green, self.blue) {
            (Some(r), Some(g), Some(b)) => Some(Color::rgb(r, g, b)),
            _ => None,
        }
    }
}

impl LightStatus {
    /// The status a bulb's own report establishes: the reported color,
    /// brightness, white channels, emitting flag and scene; speed,
    /// temperature and last-set context are not reported.
    pub open spec fn spec_from_bulb(res: BulbStatusResult) -> LightStatus {
        LightStatus {
            color: res.spec_color(),
            brightness: spec_opt_brightness(res.dimming),
            cool: spec_opt_white(res.cool),
            warm: spec_opt_white(res.warm),
            emitting: res.emitting,
            scene: spec_scene_of_id(res.scene),
            speed: None,
            temp: None,
            last: None,
        }
    }

    /// The status established by a bulb's own status report.
    pub fn from_bulb(bulb: &BulbStatus) -> (r: Self)
        ensures
            r == Self::spec_from_bulb(bulb.result),
    {
        let res = &bulb.result;
        LightStatus {
            color: res.get_color(),
            brightness: opt_brightness(res.dimming),
            cool: opt_white(res.cool),
            warm: opt_white(res.warm),
            emitting: res.emitting,
            scene: scene_of_id(res.scene),
            speed: None,
            temp: None,
            last: None,
        }
    }
}

impl From<&BulbStatus> for LightStatus {
    /// The status established by a bulb's own status report.
    fn from(bulb: &BulbStatus) -> Self {
        LightStatus::from_bulb(bulb)
    }
}

impl vstd::std_specs::convert::FromSpecImpl<&BulbStatus> for LightStatus {
    open spec fn obeys_from_spec() -> bool {
        true
    }

    open spec fn from_spec(bulb: &BulbStatus) -> Self {
        LightStatus::spec_from_bulb(bulb.result)
    }
}

} // verus!
