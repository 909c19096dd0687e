//! Animation speed for dynamic scenes.

use vstd::prelude::*;

verus! {

/// Animation speed for dynamic scenes, with valid values from 20 to 200
/// percent.
///
/// Speed only affects scenes with animation (like Party, Ocean, etc.).
/// A value of 100 is the default speed; lower values slow the animation,
/// higher values speed it up.
#[derive(Debug, Clone, Copy)]
pub struct Speed {
    pub value: u8,
}

impl Speed {
    pub open spec fn spec_is_valid(value: u8) -> bool {
        20 <= value <= 200
    }

    /// Create a new Speed with the default value (100%).
    pub fn new() -> (r: Self)
        ensures
            r.value == 100,
    {
        Speed { value: 100 }
    }

    /// Get the speed value.
    pub fn value(&self) -> (r: u8)
        ensures
            r == self.value,
    {
        self.value
    }

    /// Create a new Speed with the given value.
    ///
    /// Returns `None` if value is outside the valid range (20-200).
    pub fn create(value: u8) -> (r: Option<Self>)
        ensures
            Self::spec_is_valid(value) ==> (r matches Some(s) && s.value == value),
            !Self::spec_is_valid(value) ==> r is None,
    {
        if Self::is_valid(value) {
            Some(Speed { value })
        } else {
            None
        }
    }

    /// Create a Speed, using the default if the value is invalid.
    pub fn create_or(value: u8) -> (r: Self)
        ensures
            r.value == if Self::spec_is_valid(value) {
                value
            } else {
                100u8
            },
    {
        if Self::is_valid(value) {
            Speed { value }
        } else {
            Self::new()
        }
    }

    fn is_valid(value: u8) -> (r: bool)
        ensures
            r == Self::spec_is_valid(value),
    {
        20 <= value && value <= 200
    }
}

impl Default for Speed {
    /// The default speed is 100%.
    fn default() -> (r: Self)
        ensures
            r.value == 100,
    {
        Speed::new()
    }
}

} // verus!
