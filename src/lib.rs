pub mod client;
pub mod protocol;
pub mod server;
pub mod registry;
pub mod reconnect;
pub mod transporter;
pub mod codec;
pub mod pinning;
