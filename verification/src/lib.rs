//! Protocol primitives for federated servers that hand users over to one
//! another: identities, passports, message envelopes and the per-connection
//! lifecycle.
//!
//! Applications define their own Intent, Snapshot and Passport payloads;
//! this crate provides the framing and the rules of a session.

pub mod identity;
pub mod inventory;
pub mod manifest;
pub mod message;
pub mod session;
pub mod transfer;

pub use identity::Identity;
pub use identity::IdentityParseError;
pub use manifest::Manifest;
pub use message::ClientMessage;
pub use message::ServerMessage;
pub use session::ConnectionState;
pub use session::Departure;
pub use session::Reaction;
pub use session::Session;
pub use session::SessionError;
pub use transfer::Passport;
pub use transfer::Transfer;
