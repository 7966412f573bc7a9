//! Verified core of a safety layer over a GSS-API security service.
//!
//! The crate decides; it never calls the service. Every operation is split
//! into the request to make and the reading of the reply, so that the rules of
//! the layer (which status counts as success, how a negotiation moves between
//! its states, which handle must be given back and when) are functions on
//! plain values with proved contracts. Foreign handles appear as the integer
//! value of their address, `0` standing for the null handle.
pub mod buffer;
pub mod client;
pub mod context;
pub mod cred;
pub mod error;
pub mod name;
pub mod oid;
pub mod render;
pub mod server;
pub mod status;
pub mod text;

pub use crate::buffer::{Buf, BufRef};
pub use crate::client::ClientCtx;
pub use crate::cred::{Cred, CredUsage};
pub use crate::error::Error;
pub use crate::name::Name;
pub use crate::oid::OidSet;
pub use crate::server::ServerCtx;
