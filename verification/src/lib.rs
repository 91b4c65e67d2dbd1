//! Agent connection and dispatch engine for a self-hosted file-sharing node.
//!
//! The agent keeps one duplex connection to a coordinating service, answers
//! protocol requests about locally held file shares, streams files to
//! caller-supplied upload endpoints with bounded retries, and periodically
//! evicts expired shares.  This crate holds the verified core of that engine:
//! the session dispatch state machine, the message handler, the upload retry
//! policy, the expiry sweep, and the reconnect backoff rule.  Transport,
//! storage and clock access live outside and hand the engine plain values.

pub mod config;
pub mod errors;
pub mod handler;
pub mod hash;
pub mod protocol;
pub mod request;
pub mod session;
pub mod share;
pub mod store;
pub mod supervisor;
pub mod sweeper;
pub mod text;
pub mod upload;

pub use config::AgentConfig;
pub use errors::{DatabaseError, ServerError};
pub use handler::HandlerAction;
pub use hash::ComputerIdentifier;
pub use protocol::{ErrorKind, ProtocolMessage};
pub use request::{ShareError, ShareRequest};
pub use session::{FrameEvent, Session, SessionAction, SessionEnd};
pub use share::Share;
pub use store::Search;
pub use upload::UploadState;
