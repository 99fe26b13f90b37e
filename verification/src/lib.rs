//! A typed client model for the NetworkManager system service.
//!
//! NetworkManager exposes its state over the host message bus as a tree of
//! remote objects: a manager root, network devices, access points, stored
//! connection profiles, and IP configuration snapshots. This crate holds the
//! verified half of a client for that service: the handle types that identify
//! remote objects by destination and object path, the closed enumeration
//! tables that map wire codes to typed variants, the bitmask sets that keep
//! unknown flag bits intact, and the value models (applied connections,
//! settings bundles) whose rules the service documents.
//!
//! Every remote call is a live round trip; the transport itself is ordinary
//! I/O and stays outside this crate. What stands here is everything a caller
//! relies on between the wire and the types: classification, casting,
//! sentinel handling, and the optimistic-concurrency rule for reapplying a
//! device configuration.

pub mod bus;
pub mod connection;
pub mod device;
pub mod errors;
pub mod flags;
pub mod ip4config;
pub mod manager;
pub mod settings;
pub mod types;
pub mod wireless;

pub use connection::Connection;
pub use errors::Error;
pub use ip4config::Ip4Config;
pub use manager::NetworkManager;
pub use settings::Settings;
