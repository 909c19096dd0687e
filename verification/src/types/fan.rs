//! Fan control types for fan-equipped fixtures.

use vstd::prelude::*;

verus! {

/// Fan power state.
#[derive(Debug, Clone, Copy, PartialEq, Eq, Structural)]
pub enum FanState {
    Off,
    On,
}

impl FanState {
    pub open spec fn spec_value(self) -> u8 {
        match self {
            FanState::Off => 0,
            FanState::On => 1,
        }
    }

    /// The numeric wire value of this state (off = 0, on = 1).
    pub fn value(self) -> (r: u8)
        ensures
            r == self.spec_value(),
    {
        match self {
            FanState::Off => 0,
            FanState::On => 1,
        }
    }

    /// The state corresponding to a boolean (true = on).
    pub fn from_bool(on: bool) -> (r: Self)
        ensures
            r == if on {
                FanState::On
            } else {
                FanState::Off
            },
    {
        if on {
            FanState::On
        } else {
            FanState::Off
        }
    }
}

impl Default for FanState {
    /// The default fan state is off.
    fn default() -> (r: Self)
        ensures
            r == FanState::Off,
    {
        FanState::Off
    }
}

/// Fan operating mode.
#[derive(Debug, Clone, Copy, PartialEq, Eq, Structural)]
pub enum FanMode {
    Normal,
    Breeze,
}

impl FanMode {
    pub open spec fn spec_value(self) -> u8 {
        match self {
            FanMode::Normal => 1,
            FanMode::Breeze => 2,
        }
    }

    /// The numeric wire value of this mode (normal = 1, breeze = 2).
    pub fn value(self) -> (r: u8)
        ensures
            r == self.spec_value(),
    {
        match self {
            FanMode::Normal => 1,
            FanMode::Breeze => 2,
        }
    }
}

impl Default for FanMode {
    /// The default fan mode is normal.
    fn default() -> (r: Self)
        ensures
            r == FanMode::Normal,
    {
        FanMode::Normal
    }
}

/// Fan rotation direction.
#[derive(Debug, Clone, Copy, PartialEq, Eq, Structural)]
pub enum FanDirection {
    Forward,
    Reverse,
}

impl FanDirection {
    pub open spec fn spec_value(self) -> u8 {
        match self {
            FanDirection::Forward => 0,
            FanDirection::Reverse => 1,
        }
    }

    /// The numeric wire value of this direction (forward = 0, reverse = 1).
    pub fn value(self) -> (r: u8)
        ensures
            r == self.spec_value(),
    {
        match self {
            FanDirection::Forward => 0,
            FanDirection::Reverse => 1,
        }
    }
}

impl Default for FanDirection {
    /// The default rotation direction is forward.
    fn default() -> (r: Self)
        ensures
            r == FanDirection::Forward,
    {
        FanDirection::Forward
    }
}

/// Fan speed (typically 1-6).
#[derive(Debug, Clone, Copy, PartialEq, Eq, Structural)]
pub struct FanSpeed {
    pub value: u8,
}

impl FanSpeed {
    /// Default maximum fan speed.
    pub const DEFAULT_MAX: u8 = 6;

    pub open spec fn spec_is_valid(value: u8, max_speed: Option<u8>) -> bool {
        1 <= value <= match max_speed {
            Some(m) => m,
            None => 6u8,
        }
    }

    /// Create a fan speed. Returns `None` if out of range (1 to `max_speed`,
    /// where `max_speed` defaults to 6).
    pub fn create(value: u8, max_speed: Option<u8>) -> (r: Option<Self>)
        ensures
            Self::spec_is_valid(value, max_speed) ==> (r matches Some(s) && s.value == value),
            !Self::spec_is_valid(value, max_speed) ==> r is None,
    {
        let max = match max_speed {
            Some(m) => m,
            None => Self::DEFAULT_MAX,
        };
        if 1 <= value && value <= max {
            Some(FanSpeed { value })
        } else {
            None
        }
    }

    /// Get the fan speed value.
    pub fn value(self) -> (r: u8)
        ensures
            r == self.value,
    {
        self.value
    }
}

} // verus!
