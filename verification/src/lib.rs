//! Packet tracing: at chosen call sites a program records a location tag, a
//! 64-bit fingerprint of a payload, a timestamp and the payload's size as one
//! comma-separated line, and hands that line to a sink that can be swapped
//! at run time. The payload itself never reaches the line.

pub mod clock;
pub mod gate;
pub mod hash;
pub mod helpers;
pub mod line;
pub mod sink;

pub use clock::DATE_FORMAT_STR;
pub use gate::{packet_trace, packet_trace_maybe};
pub use sink::{set_write_target, WriteTarget};
