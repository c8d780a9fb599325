use vstd::prelude::*;

use crate::layout::LayoutError;

verus! {

/// Everything that can go wrong while querying devices or handling events.
#[derive(Debug)]
pub enum Error {
    /// A transport-level failure reported by the IPC channel, described by
    /// the transport's own message. The library never produces this variant;
    /// the process around it wraps connection and command failures in it.
    Ipc(String),
    /// Layout metadata was missing or inconsistent on a device or an event.
    Layout(LayoutError),
    /// No keyboard-class device matches the configured identifier.
    DeviceNotFound,
}

impl From<LayoutError> for Error {
    fn from(e: LayoutError) -> (r: Error) {
        Error::Layout(e)
    }
}

impl vstd::std_specs::convert::FromSpecImpl<LayoutError> for Error {
    open spec fn obeys_from_spec() -> bool {
        true
    }

    open spec fn from_spec(e: LayoutError) -> Error {
        Error::Layout(e)
    }
}

} // verus!
