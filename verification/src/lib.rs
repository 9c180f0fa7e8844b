//! A process supervisor library: the verified core of a shared-terminal
//! server that runs one child process on a pseudo-terminal and broadcasts
//! its output to any number of connected clients.
//!
//! The modules hold the pure logic of the system: the bounded history
//! ring buffer, the pseudo-terminal write sink with partial-write
//! bookkeeping, the fan-in funnel that serializes client input toward the
//! child, the supervisor state machine, and the telnet-level codec over
//! already-tokenized input. All operating-system work (reads, writes,
//! spawning, timers) happens outside the library and is handed in as
//! plain values.

pub mod child;
pub mod codec;
pub mod history;
pub mod options;
pub mod pty;
pub mod rx_wrapper;
pub mod send_all;
pub mod telnet_server;
pub mod util;
