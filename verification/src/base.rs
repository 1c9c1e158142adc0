//! Read/write functionality every property-bearing device exposes.

use vstd::prelude::*;

verus! {

/// Property read/write contract for a device representation.
pub trait PropertyManager {
    /// Ask the device for its actual state and update the internal
    /// state of the device representation accordingly.
    fn fetch_props(&mut self);

    /// Entry point for a client request to update a device property.
    fn update_property<V>(&mut self, prop_name: &str, val: V);
}

} // verus!
