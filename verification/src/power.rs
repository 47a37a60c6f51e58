//! The power state of the device.

use vstd::prelude::*;

verus! {

/// Whether the device is logically switched on.
#[derive(Clone, Copy, Debug, PartialEq, Eq, Structural)]
pub enum PowerState {
    On,
    Off,
}

impl PowerState {
    /// The opposite power state.
    pub open spec fn toggled(self) -> PowerState {
        match self {
            PowerState::On => PowerState::Off,
            PowerState::Off => PowerState::On,
        }
    }
}

impl core::ops::Not for PowerState {
    type Output = PowerState;

    fn not(self) -> (out: PowerState) {
        match self {
            PowerState::On => PowerState::Off,
            PowerState::Off => PowerState::On,
        }
    }
}

impl vstd::std_specs::ops::NotSpecImpl for PowerState {
    open spec fn obeys_not_spec() -> bool {
        true
    }

    open spec fn not_req(self) -> bool {
        true
    }

    open spec fn not_spec(self) -> PowerState {
        self.toggled()
    }
}

/// The power controller as the mode controller sees it.
#[derive(Clone, Copy, Debug, PartialEq, Eq, Structural)]
pub struct Power {
    pub state: PowerState,
}

impl Power {
    /// The device starts switched off.
    pub fn new() -> (power: Self)
        ensures
            power.state == PowerState::Off,
    {
        Power { state: PowerState::Off }
    }
}

} // verus!
