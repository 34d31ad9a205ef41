//! Protocol core of a userspace filesystem driver.
//!
//! The crate decodes request messages arriving from a kernel-side channel,
//! enforces the session state machine (uninitialized, initialized, destroyed),
//! routes each operation to a pluggable [`filesystem::Filesystem`]
//! implementation, and encodes the reply frame the kernel expects.  Reading
//! from and writing to the channel itself is left to the caller: one message
//! comes in per channel read, and every reply is a single frame handed back as
//! one byte vector.

pub mod codec;
pub mod filesystem;
pub mod reply;
pub mod request;
pub mod session;
pub mod wire;
