//! Adapter layer for performing USB Device Firmware Update (DFU) sessions
//! over a transport-agnostic USB access library.
//!
//! The crate verifies the adapter's own logic: decoding the control
//! request-type byte, parsing the 9-byte DFU functional descriptor, building
//! control transfer descriptors, truncating received payloads into caller
//! buffers, the single-use completion handoff, and the open-sequence state
//! machine that orders alternate-setting selection, descriptor fetch and
//! protocol initialization.

pub mod codec;
pub mod descriptor;
pub mod engine;
pub mod error;
pub mod handoff;
pub mod session;
pub mod transfer;
