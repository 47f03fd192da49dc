//! Host-side control logic for the field firmware update of an eMMC device:
//! register decoding, command encoding, image chunking and the update state
//! machine. Nothing here touches a device; the caller submits the commands
//! that the state machine hands out and reports back what the device said.

pub mod command;
pub mod constants;
pub mod error;
pub mod ext_csd;
pub mod writer;
pub mod orchestrator;
pub mod simulation;
pub mod transport;
