//! The UniDPP hub's logic: a stateless signed relay between
//! willing pairs divided by protocols.
pub mod config;
pub mod documents;
pub mod hex;
pub mod paths;
pub mod relay;
pub mod routes;
pub mod text;

pub use config::Config;
pub use documents::{discovery_document, keyring_document, DiscoveryDocument, KeyringDocument};
pub use hex::{decode_hex, hex};
pub use relay::{read_evidence, relay_reply, verify_reply, Evidence, Field, Reply};
pub use routes::{routes, Endpoint, Method};
