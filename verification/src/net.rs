//! Link-layer addresses and the description of a network link.

pub mod error;
pub mod ip;
pub mod link;
pub mod mac;

pub use error::Error;
pub use ip::IpAddress;
pub use link::{Link, LinkStats};
pub use mac::{MacAddr, MAC_ADDR_LEN};
