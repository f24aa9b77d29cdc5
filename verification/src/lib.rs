//! Core logic of a serial-device flashing tool: command-template
//! resolution, the device session state machine, the serial transport
//! boundary, and the flash-executor decisions.

pub mod device;
pub mod flash;
pub mod session;
pub mod template;
pub mod text;
pub mod transport;
