//! Message values exchanged with the companion's RPC service, as plain data.
//! Their wire encoding lives with the transport.

use vstd::prelude::*;

verus! {

/// Phase of a touch: the finger goes down, or comes up.
#[derive(Debug, Clone, Copy, PartialEq, Eq, Hash, Structural)]
pub enum HidDirection {
    Down,
    Up,
}

/// Acknowledgement of a stream of input events.
#[derive(Debug, Clone, Copy, PartialEq, Eq, Structural)]
pub struct HidResponse {}

/// Request for a frame of the current screen; it takes no parameters.
#[derive(Debug, Clone, Copy, PartialEq, Eq, Structural)]
pub struct ScreenshotRequest {}

/// A captured frame: the encoded image and the name of its format.
#[derive(Debug, Clone)]
pub struct ScreenshotResponse {
    pub image_data: Vec<u8>,
    pub image_format: String,
}

} // verus!
