//! A TCP telemetry session for Teltonika tracking devices: the identifier
//! handshake, classification of incoming chunks, the acknowledgment
//! sub-protocol and the replies written back to the device.

pub mod config;
pub mod connection;
pub mod decoder;
pub mod laws;
pub mod protocol;
pub mod session;

pub use config::{ApiIntegrationConfig, Config, ServerConfig};
pub use connection::ConnectionState;
pub use protocol::{identify_message_type, is_imei_authorized, is_imei_message, MessageType};
pub use session::{process_chunk, Outcome};
