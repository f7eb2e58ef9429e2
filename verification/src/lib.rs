//! Consumer-side client engine for an NSQ-style message-queue daemon.
//!
//! The crate holds the verified core of the client: the per-connection
//! handshake state machine with its RDY/in-flight flow control
//! ([`conn::Connection`]), the configuration exchanged during negotiation
//! ([`config::Config`], [`config::NsqdConfig`]), and the typed frames and
//! commands that cross the wire ([`msgs::Frame`], [`msgs::Cmd`]).
//! Socket I/O, the readiness loop and the worker threads live outside the
//! verified core and drive it through these types.

pub mod config;
pub mod conn;
pub mod json;
pub mod msgs;

pub use config::Config;
pub use config::NsqdConfig;
pub use config::VerifyServerCert;
pub use msgs::Cmd;
pub use msgs::ConnStatus;
pub use msgs::ControlMsg;
pub use msgs::Fatal;
pub use msgs::Frame;
pub use msgs::Msg;
pub use msgs::is_sentinel;
pub use msgs::sentinel_payload;
pub use conn::ConnState;
pub use conn::Connection;
pub use conn::TcpConnect;
