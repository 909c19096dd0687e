//! RGB, RGBW, and RGBWW color representations.

use vstd::prelude::*;
use crate::text::spec_parse_u8_or_zero;
use crate::text::spec_split;
use crate::text::parse_u8_or_zero;
use crate::text::split_text;

verus! {

/// The comma-separated fields of `s`, each read as a `u8` with parse failures
/// mapped to zero, exactly as the color parsers below see them.
pub open spec fn spec_color_fields(s: Seq<char>) -> Seq<u8> {
    spec_split(s, ',').map_values(|f: Seq<char>| spec_parse_u8_or_zero(f))
}

/// Split a string at commas and read every field as a `u8`, with fields that
/// fail to parse mapped to zero.
fn color_fields(s: &str) -> (r: Vec<u8>)
    ensures
        r@ == spec_color_fields(s@),
{
    let parts = split_text(s, ',');
    let mut out: Vec<u8> = Vec::new();
    let mut i: usize = 0;
    while i < parts.len()
        invariant
            i <= parts.len(),
            parts.deep_view() == spec_split(s@, ','),
            out@ =~= spec_color_fields(s@).take(i as int),
        decreases parts.len() - i,
    {
        out.push(parse_u8_or_zero(parts[i].as_str()));
        proof {
            assert(spec_color_fields(s@).take(i + 1 as int) =~= spec_color_fields(s@).take(
                i as int,
            ).push(spec_parse_u8_or_zero(parts.deep_view()[i as int])));
        }
        i = i + 1;
    }
    proof {
        assert(spec_color_fields(s@).take(parts.deep_view().len() as int) =~= spec_color_fields(
            s@,
        ));
    }
    out
}

/// An RGB color with red, green, and blue components (0-255 each).
#[derive(Debug, Clone, Copy, PartialEq, Eq, Structural)]
pub struct Color {
    pub red: u8,
    pub green: u8,
    pub blue: u8,
}

impl Color {
    /// Create a color with the given RGB values.
    pub fn rgb(red: u8, green: u8, blue: u8) -> (r: Self)
        ensures
            r == (Color { red, green, blue }),
    {
        Color { red, green, blue }
    }

    /// Create a default color (black: 0,0,0).
    pub fn new() -> (r: Self)
        ensures
            r == (Color { red: 0u8, green: 0u8, blue: 0u8 }),
    {
        Color { red: 0, green: 0, blue: 0 }
    }

    pub fn red(&self) -> (r: u8)
        ensures
            r == self.red,
    {
        self.red
    }

    pub fn green(&self) -> (r: u8)
        ensures
            r == self.green,
    {
        self.green
    }

    pub fn blue(&self) -> (r: u8)
        ensures
            r == self.blue,
    {
        self.blue
    }

    /// Parse from a comma-separated string (e.g., "255,128,0"): exactly three
    /// fields, each read as a `u8` with parse failures mapped to zero.
    pub fn parse_text(s: &str) -> (r: Result<Self, String>)
        ensures
            spec_color_fields(s@).len() == 3 ==> r == Ok::<Color, String>(
                Color {
                    red: spec_color_fields(s@)[0],
                    green: spec_color_fields(s@)[1],
                    blue: spec_color_fields(s@)[2],
                },
            ),
            spec_color_fields(s@).len() != 3 ==> r is Err,
    {
        let parts = color_fields(s);
        if parts.len() == 3 {
            Ok(Self::rgb(parts[0], parts[1], parts[2]))
        } else {
            Err(String::from_str("Expected format: r,g,b"))
        }
    }
}

impl Default for Color {
    /// The default color is black (0,0,0).
    fn default() -> (r: Self)
        ensures
            r == (Color { red: 0u8, green: 0u8, blue: 0u8 }),
    {
        Color::new()
    }
}

impl core::str::FromStr for Color {
    type Err = String;

    /// Parse from a comma-separated string (e.g., "255,128,0").
    fn from_str(s: &str) -> Result<Self, String> {
        Color::parse_text(s)
    }
}

/// An RGBW color (RGB + warm white, 0-255 each).
#[derive(Debug, Clone, Copy, PartialEq, Eq, Structural)]
pub struct ColorRGBW {
    pub red: u8,
    pub green: u8,
    pub blue: u8,
    pub warm: u8,
}

impl ColorRGBW {
    pub fn new(red: u8, green: u8, blue: u8, warm: u8) -> (r: Self)
        ensures
            r == (ColorRGBW { red, green, blue, warm }),
    {
        ColorRGBW { red, green, blue, warm }
    }

    /// The RGB components, dropping the white channel.
    pub fn to_rgb(&self) -> (r: Color)
        ensures
            r == (Color { red: self.red, green: self.green, blue: self.blue }),
    {
        Color::rgb(self.red, self.green, self.blue)
    }

    /// Parse from a comma-separated string of exactly four fields, each read
    /// as a `u8` with parse failures mapped to zero.
    pub fn parse_text(s: &str) -> (r: Result<Self, String>)
        ensures
            spec_color_fields(s@).len() == 4 ==> r == Ok::<ColorRGBW, String>(
                ColorRGBW {
                    red: spec_color_fields(s@)[0],
                    green: spec_color_fields(s@)[1],
                    blue: spec_color_fields(s@)[2],
                    warm: spec_color_fields(s@)[3],
                },
            ),
            spec_color_fields(s@).len() != 4 ==> r is Err,
    {
        let parts = color_fields(s);
        if parts.len() == 4 {
            Ok(Self::new(parts[0], parts[1], parts[2], parts[3]))
        } else {
            Err(String::from_str("Expected format: r,g,b,w"))
        }
    }
}

impl core::str::FromStr for ColorRGBW {
    type Err = String;

    /// Parse from a comma-separated string (e.g., "255,128,0,50").
    fn from_str(s: &str) -> Result<Self, String> {
        ColorRGBW::parse_text(s)
    }
}

/// An RGBWW color (RGB + cool white + warm white, 0-255 each).
#[derive(Debug, Clone, Copy, PartialEq, Eq, Structural)]
pub struct ColorRGBWW {
    pub red: u8,
    pub green: u8,
    pub blue: u8,
    pub cool: u8,
    pub warm: u8,
}

impl ColorRGBWW {
    pub fn new(red: u8, green: u8, blue: u8, cool: u8, warm: u8) -> (r: Self)
        ensures
            r == (ColorRGBWW { red, green, blue, cool, warm }),
    {
        ColorRGBWW { red, green, blue, cool, warm }
    }

    /// The RGB components, dropping both white channels.
    pub fn to_rgb(&self) -> (r: Color)
        ensures
            r == (Color { red: self.red, green: self.green, blue: self.blue }),
    {
        Color::rgb(self.red, self.green, self.blue)
    }

    /// The RGBW components, dropping the cool white channel.
    pub fn to_rgbw(&self) -> (r: ColorRGBW)
        ensures
            r == (ColorRGBW { red: self.red, green: self.green, blue: self.blue, warm: self.warm }),
    {
        ColorRGBW::new(self.red, self.green, self.blue, self.warm)
    }

    /// Parse from a comma-separated string of exactly five fields, each read
    /// as a `u8` with parse failures mapped to zero.
    pub fn parse_text(s: &str) -> (r: Result<Self, String>)
        ensures
            spec_color_fields(s@).len() == 5 ==> r == Ok::<ColorRGBWW, String>(
                ColorRGBWW {
                    red: spec_color_fields(s@)[0],
                    green: spec_color_fields(s@)[1],
                    blue: spec_color_fields(s@)[2],
                    cool: spec_color_fields(s@)[3],
                    warm: spec_color_fields(s@)[4],
                },
            ),
            spec_color_fields(s@).len() != 5 ==> r is Err,
    {
        let parts = color_fields(s);
        if parts.len() == 5 {
            Ok(Self::new(parts[0], parts[1], parts[2], parts[3], parts[4]))
        } else {
            Err(String::from_str("Expected format: r,g,b,c,w"))
        }
    }
}

impl core::str::FromStr for ColorRGBWW {
    type Err = String;

    /// Parse from a comma-separated string (e.g., "255,128,0,30,50").
    fn from_str(s: &str) -> Result<Self, String> {
        ColorRGBWW::parse_text(s)
    }
}

} // verus!
