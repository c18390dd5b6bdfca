//! Verified core of a one-value sensor telemetry pipeline.
//!
//! A battery-powered sensor node digitizes one analog signal and pushes each
//! reading over a short-range wireless link; a host agent discovers the node,
//! subscribes to its notifications, decodes each two-byte payload and
//! republishes the value as a pollable gauge. This crate holds the logic of
//! both endpoints — the wire codec, the node's connection-lifecycle state
//! machine, and the host's scan/connect/subscribe/decode session machine —
//! with contracts proved by Verus. The radio, the timers and the metrics
//! endpoint stay outside; they drive these machines with plain events and
//! carry out the actions the machines return.

pub mod codec;
pub mod deadline;
pub mod host;
pub mod sensor;
pub mod text;
