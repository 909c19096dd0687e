//! White LED channel control.

use vstd::prelude::*;

verus! {

/// White LED intensity for cool or warm white channels, from 1 to 100
/// percent.
///
/// Some bulbs have separate cool and warm white LED channels that can be
/// controlled independently of the RGB LEDs. This provides more accurate
/// white light reproduction than mixing RGB.
#[derive(Debug, Clone, Copy)]
pub struct White {
    pub value: u8,
}

impl White {
    pub open spec fn spec_is_valid(value: u8) -> bool {
        1 <= value <= 100
    }

    /// Create a new White with the default value (100%).
    pub fn new() -> (r: Self)
        ensures
            r.value == 100,
    {
        White { value: 100 }
    }

    /// Get the white value.
    pub fn value(&self) -> (r: u8)
        ensures
            r == self.value,
    {
        self.value
    }

    /// Create a new White with the given value.
    ///
    /// Returns `None` if value is outside the valid range (1-100).
    pub fn create(value: u8) -> (r: Option<Self>)
        ensures
            Self::spec_is_valid(value) ==> (r matches Some(w) && w.value == value),
            !Self::spec_is_valid(value) ==> r is None,
    {
        if 1 <= value && value <= 100 {
            Some(White { value })
        } else {
            None
        }
    }
}

impl Default for White {
    /// The default white intensity is 100%.
    fn default() -> (r: Self)
        ensures
            r.value == 100,
    {
        White::new()
    }
}

} // verus!
