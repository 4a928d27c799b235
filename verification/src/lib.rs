//! Transport security and trace propagation beneath an MQTT client for
//! ITS messaging.
//!
//! Two concerns are negotiated once and then threaded through every call:
//! the secure transport of the MQTT connection, and the trace context that
//! follows a message across asynchronous boundaries.
pub mod transport;
