//! The capability contract of a filter wheel.

use vstd::prelude::*;

use crate::types::DevType;
use crate::types::DeviceType;

verus! {

/// Operations a filter wheel driver must provide.
pub trait FilterWheel {
    /// The slot the wheel currently sits on.
    fn actual_slot(&self) -> i32;

    /// Ask the wheel to move to the given slot.
    fn set_slot(&self, slot: i32);

    /// Switch unidirectional movement on or off.
    fn set_unidirection(&self, flag: bool);

    /// Whether the wheel only turns in one direction.
    fn is_unidirectional(&self) -> bool;
}

impl DevType for dyn FilterWheel {
    fn dev_type(&self) -> DeviceType {
        DeviceType::FilterWheel
    }
}

} // verus!
