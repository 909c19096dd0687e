//! Ratio control for dual-head fixtures.

use vstd::prelude::*;

verus! {

/// Ratio for dual-head fixtures, controlling the balance between up and down
/// lights.
///
/// Valid values are 0 to 100, where:
/// - 0 = all light directed downward
/// - 50 = balanced between up and down
/// - 100 = all light directed upward
///
/// This only applies to fixtures with dual-head lighting (e.g., floor lamps
/// with both up-lighting and down-lighting capabilities).
#[derive(Debug, Clone, Copy)]
pub struct Ratio {
    pub value: u8,
}

impl Ratio {
    pub open spec fn spec_is_valid(value: u8) -> bool {
        value <= 100
    }

    /// Create a new Ratio with the default value (50 = balanced).
    pub fn new() -> (r: Self)
        ensures
            r.value == 50,
    {
        Ratio { value: 50 }
    }

    /// Get the ratio value.
    pub fn value(&self) -> (r: u8)
        ensures
            r == self.value,
    {
        self.value
    }

    /// Create a new Ratio with the given value.
    ///
    /// Returns `None` if value exceeds 100.
    pub fn create(value: u8) -> (r: Option<Self>)
        ensures
            Self::spec_is_valid(value) ==> (r matches Some(x) && x.value == value),
            !Self::spec_is_valid(value) ==> r is None,
    {
        if value <= 100 {
            Some(Ratio { value })
        } else {
            None
        }
    }
}

impl Default for Ratio {
    /// The default ratio is balanced (50).
    fn default() -> (r: Self)
        ensures
            r.value == 50,
    {
        Ratio::new()
    }
}

} // verus!
