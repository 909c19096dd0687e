//! Power mode for light control.

use vstd::prelude::*;

verus! {

/// Power state for a light.
#[derive(Debug, Clone, Copy, PartialEq, Eq, Structural)]
pub enum PowerMode {
    /// Reboot the light
    Reboot,
    /// Turn the light on
    On,
    /// Turn the light off
    Off,
}

} // verus!
