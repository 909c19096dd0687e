//! Bulb configuration and type detection.

use vstd::prelude::*;
use crate::text::spec_contains;
use crate::text::spec_split;
use crate::text::spec_starts_with;
use crate::text::contains_text;
use crate::text::split_text;
use crate::text::starts_with_text;

verus! {

/// System configuration of a bulb, as plain values.
#[derive(Debug, Clone)]
pub struct SystemConfig {
    pub mac: String,
    pub home_id: Option<u64>,
    pub room_id: Option<u64>,
    pub module_name: Option<String>,
    pub fw_version: Option<String>,
    pub group_id: Option<u64>,
    pub type_id: Option<u32>,
    pub ping: Option<u32>,
}

/// Classification of bulb types.
#[derive(Debug, Clone, Copy, PartialEq, Eq, Structural)]
pub enum BulbClass {
    /// Tunable white
    TW,
    /// Dimmable white
    DW,
    /// Full color
    RGB,
    /// Smart socket
    Socket,
    /// Fan with dimmable light
    FanDim,
}

/// Feature flags for a bulb.
#[derive(Debug, Clone, Copy, PartialEq, Eq, Structural)]
pub struct Features {
    pub color: bool,
    pub color_tmp: bool,
    pub effect: bool,
    pub brightness: bool,
    pub dual_head: bool,
    pub fan: bool,
    pub fan_breeze_mode: bool,
    pub fan_reverse: bool,
}

impl Features {
    /// No features at all.
    pub open spec fn spec_none() -> Features {
        Features {
            color: false,
            color_tmp: false,
            effect: false,
            brightness: false,
            dual_head: false,
            fan: false,
            fan_breeze_mode: false,
            fan_reverse: false,
        }
    }
}

impl Default for Features {
    /// By default no feature is present.
    fn default() -> (r: Self)
        ensures
            r == Features::spec_none(),
    {
        Features {
            color: false,
            color_tmp: false,
            effect: false,
            brightness: false,
            dual_head: false,
            fan: false,
            fan_breeze_mode: false,
            fan_reverse: false,
        }
    }
}

/// Color temperature range (Kelvin).
#[derive(Debug, Clone, Copy, PartialEq, Eq, Structural)]
pub struct KelvinRange {
    pub min: u16,
    pub max: u16,
}

impl Default for KelvinRange {
    /// The zero range.
    fn default() -> (r: Self)
        ensures
            r == (KelvinRange { min: 0u16, max: 0u16 }),
    {
        KelvinRange { min: 0, max: 0 }
    }
}

/// Complete type information for a bulb.
#[derive(Debug, Clone)]
pub struct BulbType {
    pub features: Features,
    pub name: String,
    pub kelvin_range: KelvinRange,
    pub bulb_class: BulbClass,
    pub fw_version: Option<String>,
    pub white_channels: u8,
}

/// The type token of a module name: the part after the first underscore
/// (e.g. `SHRGB1C` in `ESP01_SHRGB1C_31`), if there is one.
pub open spec fn spec_type_part(m: Seq<char>) -> Option<Seq<char>> {
    let parts = spec_split(m, '_');
    if parts.len() > 1 {
        Some(parts[1])
    } else {
        None
    }
}

/// The class a type token names, by the first matching tag: `RGB`, `TW`,
/// `DW`, `SOCKET`, `FANDIM`; everything else counts as dimmable white.
pub open spec fn spec_class_of_part(tp: Seq<char>) -> BulbClass {
    if spec_contains(tp, "RGB"@) {
        BulbClass::RGB
    } else if spec_contains(tp, "TW"@) {
        BulbClass::TW
    } else if spec_contains(tp, "DW"@) || spec_contains(tp, "SHDW"@) {
        BulbClass::DW
    } else if spec_contains(tp, "SOCKET"@) {
        BulbClass::Socket
    } else if spec_contains(tp, "FANDIM"@) {
        BulbClass::FanDim
    } else {
        BulbClass::DW
    }
}

/// The class a module name denotes.
pub open spec fn spec_bulb_class(m: Seq<char>) -> BulbClass {
    match spec_type_part(m) {
        Some(tp) => spec_class_of_part(tp),
        None => BulbClass::DW,
    }
}

/// Whether the type token carries a recognized class tag (so its branch set
/// features and channels) — a token without one leaves the defaults.
pub open spec fn spec_part_tagged(tp: Seq<char>) -> bool {
    spec_contains(tp, "RGB"@) || spec_contains(tp, "TW"@) || spec_contains(tp, "DW"@)
        || spec_contains(tp, "SHDW"@) || spec_contains(tp, "SOCKET"@) || spec_contains(
        tp,
        "FANDIM"@,
    )
}

/// The features a module name denotes: dual-head fixtures announce
/// themselves with a `DH` prefix on the type token, and the class tag
/// decides the lighting and fan capabilities.
pub open spec fn spec_features(m: Seq<char>) -> Features {
    match spec_type_part(m) {
        None => Features::spec_none(),
        Some(tp) => {
            let base = Features { dual_head: spec_starts_with(tp, "DH"@), ..Features::spec_none() };
            if !spec_part_tagged(tp) {
                base
            } else {
                match spec_class_of_part(tp) {
                    BulbClass::RGB => Features {
                        color: true,
                        color_tmp: true,
                        effect: true,
                        brightness: true,
                        ..base
                    },
                    BulbClass::TW => Features { color_tmp: true, brightness: true, effect: true, ..base },
                    BulbClass::DW => Features { brightness: true, ..base },
                    BulbClass::Socket => base,
                    BulbClass::FanDim => Features {
                        brightness: true,
                        fan: true,
                        fan_breeze_mode: true,
                        fan_reverse: true,
                        ..base
                    },
                }
            }
        },
    }
}

/// The color temperature range a module name denotes: full-color bulbs reach
/// down to 2200K, everything else is reported as 2700K to 6500K.
pub open spec fn spec_kelvin_range(m: Seq<char>) -> KelvinRange {
    if spec_bulb_class(m) == BulbClass::RGB && spec_type_part(m) is Some {
        KelvinRange { min: 2200u16, max: 6500u16 }
    } else {
        KelvinRange { min: 2700u16, max: 6500u16 }
    }
}

/// The number of white LED channels a module name denotes: two for color and
/// tunable-white bulbs, one for dimmable-white and fan fixtures, none
/// otherwise.
pub open spec fn spec_white_channels(m: Seq<char>) -> u8 {
    match spec_type_part(m) {
        None => 0u8,
        Some(tp) => if !spec_part_tagged(tp) {
            0u8
        } else {
            match spec_class_of_part(tp) {
                BulbClass::RGB => 2u8,
                BulbClass::TW => 2u8,
                BulbClass::DW => 1u8,
                BulbClass::Socket => 0u8,
                BulbClass::FanDim => 1u8,
            }
        },
    }
}

impl BulbType {
    /// Parse bulb type from a module name (e.g., "ESP01_SHRGB1C_31").
    pub fn from_module_name(module_name: &str, fw_version: Option<&str>) -> (r: Self)
        ensures
            r.name@ == module_name@,
            match fw_version {
                Some(v) => r.fw_version matches Some(rv) && rv@ == v@,
                None => r.fw_version is None,
            },
            r.bulb_class == spec_bulb_class(module_name@),
            r.features == spec_features(module_name@),
            r.kelvin_range == spec_kelvin_range(module_name@),
            r.white_channels == spec_white_channels(module_name@),
    {
        let parts = split_text(module_name, '_');
        let mut features = Features::default();
        let mut bulb_class = BulbClass::DW;
        let mut kelvin_range = KelvinRange { min: 2700, max: 6500 };
        let mut white_channels: u8 = 0;

        if parts.len() > 1 {
            let type_part = &parts[1];
            proof {
                assert(spec_type_part(module_name@) == Some(type_part@));
            }
            features.dual_head = starts_with_text(type_part.as_str(), "DH");

            if contains_text(type_part.as_str(), "RGB") {
                bulb_class = BulbClass::RGB;
                features.color = true;
                features.color_tmp = true;
                features.effect = true;
                features.brightness = true;
                white_channels = 2;
                kelvin_range = KelvinRange { min: 2200, max: 6500 };
            } else if contains_text(type_part.as_str(), "TW") {
                bulb_class = BulbClass::TW;
                features.color_tmp = true;
                features.brightness = true;
                features.effect = true;
                white_channels = 2;
            } else if contains_text(type_part.as_str(), "DW") || contains_text(
                type_part.as_str(),
                "SHDW",
            ) {
                bulb_class = BulbClass::DW;
                features.brightness = true;
                white_channels = 1;
            } else if contains_text(type_part.as_str(), "SOCKET") {
                bulb_class = BulbClass::Socket;
            } else if contains_text(type_part.as_str(), "FANDIM") {
                bulb_class = BulbClass::FanDim;
                features.brightness = true;
                features.fan = true;
                features.fan_breeze_mode = true;
                features.fan_reverse = true;
                white_channels = 1;
            }
        }
        BulbType {
            features,
            name: module_name.to_owned(),
            kelvin_range,
            bulb_class,
            fw_version: match fw_version {
                Some(v) => Some(v.to_owned()),
                None => None,
            },
            white_channels,
        }
    }
}

} // verus!
