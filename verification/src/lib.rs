//! Link layer between a host and one attached device: commands go out, responses and
//! unsolicited packets come back, over a local framing (serial line, USB bridge) or a remote
//! one (socket).
//!
//! The library holds the protocol: the frame formats, the decoder, the deadlines, the reset
//! handshake and the multiplexer. It performs no I/O and reads no clock. Whatever waits on a
//! channel is written as a step function from what was observed to what to do next; the caller
//! performs the operation and reports back.

pub mod backend;
pub mod clock;
pub mod decoder;
pub mod discovery;
pub mod error;
pub mod frame;
pub mod link;
pub mod local;
pub mod read;
pub mod remote;
pub mod reset;
pub mod wire;

pub use backend::Backend;
pub use discovery::{list_local_devices, BackendType, DeviceInfo};
pub use error::{Error, IoError, IoErrorKind};
pub use link::{new_local, new_remote, Link};
pub use frame::{Command, DataType, Packet, Response};
