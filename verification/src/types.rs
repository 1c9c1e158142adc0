//! Device-type tags used for capability dispatch.

use vstd::prelude::*;

verus! {

/// The hardware families a driver can expose.
#[derive(Clone, Copy, Debug, Eq, PartialEq, Structural)]
pub enum DeviceType {
    Ccd,
    Mount,
    Focuser,
    FilterWheel,
    PowerBox,
}

/// Anything that can say which hardware family it belongs to.
pub trait DevType {
    fn dev_type(&self) -> DeviceType;
}

} // verus!
