//! Relay between a handheld console's screen-capture stream and local viewers:
//! the wire codec, the per-screen frame reassembler, the fan-out of fragments
//! and frames, and the multipart framing of the viewer stream.

pub mod bytes;
pub mod fanout;
pub mod multipart;
pub mod packets;
pub mod reassembly;
pub mod responder;
pub mod streams;
