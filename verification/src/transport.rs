//! The MQTT transport, its TLS material, and the telemetry that follows the
//! messages.
pub mod mqtt;
pub mod span;
pub mod telemetry;
pub mod tls;
