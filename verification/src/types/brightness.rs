//! Brightness control for lights.

use vstd::prelude::*;

verus! {

/// Brightness level for a light, with valid values from 10 to 100 percent.
///
/// Brightness can be combined with any other lighting mode (color, scene,
/// etc.). The bulbs do not support brightness below 10%.
#[derive(Debug, Clone, Copy)]
pub struct Brightness {
    pub value: u8,
}

impl Brightness {
    pub open spec fn spec_is_valid(value: u8) -> bool {
        10 <= value <= 100
    }

    /// Create a new Brightness with the default value (100%).
    pub fn new() -> (r: Self)
        ensures
            r.value == 100,
    {
        Brightness { value: 100 }
    }

    /// Get the brightness value.
    pub fn value(&self) -> (r: u8)
        ensures
            r == self.value,
    {
        self.value
    }

    /// Create a new Brightness with the given value.
    ///
    /// Returns `None` if value is outside the valid range (10-100).
    pub fn create(value: u8) -> (r: Option<Self>)
        ensures
            Self::spec_is_valid(value) ==> (r matches Some(b) && b.value == value),
            !Self::spec_is_valid(value) ==> r is None,
    {
        if Self::is_valid(value) {
            Some(Brightness { value })
        } else {
            None
        }
    }

    /// Create a Brightness, using the default if the value is invalid.
    pub fn create_or(value: u8) -> (r: Self)
        ensures
            r.value == if Self::spec_is_valid(value) {
                value
            } else {
                100u8
            },
    {
        if Self::is_valid(value) {
            Brightness { value }
        } else {
            Self::new()
        }
    }

    fn is_valid(value: u8) -> (r: bool)
        ensures
            r == Self::spec_is_valid(value),
    {
        10 <= value && value <= 100
    }
}

impl Default for Brightness {
    /// The default brightness is 100%.
    fn default() -> (r: Self)
        ensures
            r.value == 100,
    {
        Brightness::new()
    }
}

} // verus!
