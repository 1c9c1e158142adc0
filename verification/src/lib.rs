//! Building blocks for astrophotography device drivers.
//!
//! The crate provides a typed, permission-aware property model for the
//! controllable and observable state of astronomical hardware (filter
//! wheels, mounts, focusers, cameras, power boxes), together with a
//! device contract that governs how cached in-memory state is kept in
//! step with the physical device behind a transport collaborator.

use vstd::prelude::*;

pub mod base;
pub mod device;
pub mod filter_wheel;
pub mod json;
pub mod properties;
pub mod types;

verus! {

/// Top-level error taxonomy for drivers built on this crate.
///
/// All variants are recoverable and are reported to the immediate
/// caller; none is meant to terminate the process.
#[derive(Debug, PartialEq)]
pub enum LightspeedError {
    /// A property-level failure: permission or validity.
    PropertyError(crate::properties::PropertyError),
    /// An I/O failure, carried as the descriptive kind string of the
    /// underlying error rather than an opaque code.
    IoError(String),
    /// A client named a property that the device does not own.
    UnknownProperty,
    /// The transport collaborator could not reach the device.
    DeviceConnectionError,
}

impl From<crate::properties::PropertyError> for LightspeedError {
    fn from(error: crate::properties::PropertyError) -> (r: Self) {
        LightspeedError::PropertyError(error)
    }
}

impl vstd::std_specs::convert::FromSpecImpl<crate::properties::PropertyError> for LightspeedError {
    open spec fn obeys_from_spec() -> bool {
        true
    }

    open spec fn from_spec(t: crate::properties::PropertyError) -> Self {
        LightspeedError::PropertyError(t)
    }
}

/// Driver contract: every device driver keeps an in-memory image of the
/// hardware state and accepts client update requests against it.
pub trait Lightspeed {
    /// Synchronize the cached device state with the physical device.
    fn sync_state(&mut self);

    /// Entry point for client requests to update a named property.
    fn update_property<T>(&mut self, prop_name: &str, val: T) -> Result<(), LightspeedError>;
}

} // verus!
