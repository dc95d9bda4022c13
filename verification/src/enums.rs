//! Useful enums.

use vstd::prelude::*;

verus! {

/// The state in which a module is in, either exported or unexported.
#[derive(Debug, Clone, Copy, PartialEq, Eq, Structural)]
pub enum DeviceState {
    /// Exported and available for use.
    Exported,
    /// Not exported and unavailable for use.
    Unexported,
}

impl DeviceState {
    /// The state that a probe of the peripheral's sysfs directory shows: the
    /// peripheral is exported exactly when the directory is there.
    pub open spec fn of_probe(present: bool) -> DeviceState {
        if present {
            DeviceState::Exported
        } else {
            DeviceState::Unexported
        }
    }

    /// The state of a peripheral whose sysfs directory was found (`true`) or
    /// not found (`false`).
    pub fn probed(present: bool) -> (state: DeviceState)
        ensures
            state == Self::of_probe(present),
    {
        if present {
            DeviceState::Exported
        } else {
            DeviceState::Unexported
        }
    }
}

} // verus!
