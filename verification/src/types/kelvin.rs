//! Color temperature control.

use vstd::prelude::*;

verus! {

/// Color temperature in Kelvin, with valid values from 1000K to 8000K.
///
/// Lower values produce warmer (more yellow/orange) light, while higher
/// values produce cooler (more blue) light. Typical values:
/// - 2700K: Warm white (incandescent-like)
/// - 4000K: Neutral white
/// - 6500K: Daylight
#[derive(Debug, Clone, Copy)]
pub struct Kelvin {
    pub kelvin: u16,
}

impl Kelvin {
    pub open spec fn spec_is_valid(kelvin: u16) -> bool {
        1000 <= kelvin <= 8000
    }

    /// Create a new Kelvin with the default value (1000K).
    pub fn new() -> (r: Self)
        ensures
            r.kelvin == 1000,
    {
        Kelvin { kelvin: 1000 }
    }

    /// Get the kelvin value.
    pub fn kelvin(&self) -> (r: u16)
        ensures
            r == self.kelvin,
    {
        self.kelvin
    }

    /// Create a new Kelvin with the given value.
    ///
    /// Returns `None` if value is outside the valid range (1000-8000).
    pub fn create(kelvin: u16) -> (r: Option<Self>)
        ensures
            Self::spec_is_valid(kelvin) ==> (r matches Some(k) && k.kelvin == kelvin),
            !Self::spec_is_valid(kelvin) ==> r is None,
    {
        if 1000 <= kelvin && kelvin <= 8000 {
            Some(Kelvin { kelvin })
        } else {
            None
        }
    }
}

impl Default for Kelvin {
    /// The default color temperature is 1000K.
    fn default() -> (r: Self)
        ensures
            r.kelvin == 1000,
    {
        Kelvin::new()
    }
}

} // verus!
