//! A local launcher for a long-lived background daemon: it classifies an
//! invocation as a lifecycle command (start, stop, restart) or a pass-through
//! request, resolves the daemon's loopback endpoint from an optional port
//! override, marshals pass-through arguments into a wire payload, and drives
//! the restart confirmation protocol as an explicit state machine.
//!
//! The crate holds the launcher's decision logic and wire formats; the
//! surrounding process (socket I/O, process-table probes, script invocation)
//! feeds it plain values and performs the actions it requests.

pub mod command;
pub mod endpoint;
pub mod lifecycle;
pub mod session;
