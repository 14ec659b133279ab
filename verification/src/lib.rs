//! Query remote-desktop sessions of a session server.
//!
//! The operating-system collaborators (opening and closing a server handle,
//! enumerating sessions, querying per-session client metadata, reading the
//! computer name) run outside this crate; each operation here takes the raw
//! outcome of such a call as a plain value, validates and decodes it, and
//! maintains the client's snapshot of session records.

pub mod client;
pub mod error;
pub mod host;
pub mod state;
pub mod text;

pub use client::ClientInfo;
pub use client::RawClientInfo;
pub use client::RemoteDesktopSessionInfo;
pub use client::RemoteServer;
pub use client::SessionInfoIter;
pub use error::SessionError;
pub use error::TextField;
pub use host::get_host_name;
pub use state::RemoteDesktopSessionState;
