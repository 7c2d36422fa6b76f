//! OneOS user space: the JSON Lines protocol spoken between the `oneos`
//! client and the `oneosd` daemon, the daemon's request handling, the
//! client's command handling and output, and the integer side of the boot
//! splash (canvas, framebuffer encoding, boot history, signature format).
//!
//! Everything here is verified with Verus; the programs around it (sockets,
//! files, processes, floating-point drawing) live outside this library.

pub mod text;
pub mod proto;
pub mod daemon;
pub mod cli;
pub mod splash;
pub mod settings;
