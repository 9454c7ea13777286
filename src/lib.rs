//! A daemon core that puts the host to sleep when it receives a magic packet
//! carrying its own hardware address in reverse byte order.
pub mod config;
pub mod errors;
pub mod packet;
pub mod server;
