//! A load-generation harness for a document-collaboration server reachable
//! over a bidirectional message stream.
//!
//! The library holds the verified core: the per-session handshake state
//! machine, the fixed wire messages, and the coordinator that counts
//! completion signals. The surrounding binary drives connections, timers and
//! channels and feeds their outcomes to the state machine as plain events.

pub mod coordinator;
pub mod protocol;
pub mod session;
