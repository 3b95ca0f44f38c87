//! Client-side logic for driving a simulator automation companion: the
//! calibration sequencer, the status mapping of the native bindings, and the
//! naming of captured frames.

pub mod calibration;
pub mod embedded;
pub mod ffi;
pub mod image_analyzer;
pub mod naming;
pub mod plan_lemmas;
pub mod proto;
