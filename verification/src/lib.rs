//! Message-framing and body-transfer layer of an HTTP engine.
//!
//! The crate models the head of an incoming HTTP/1.x message, decides
//! whether a connection may be reused once a message completes, dispatches
//! raw bytes to a protocol-version-specific parser, and bridges a
//! push-driven reactor to a pull-style consumer API for streaming message
//! bodies with explicit backpressure.

pub mod events;
pub mod header;
pub mod message;
pub mod parse;
pub mod policy;
pub mod stream;
pub mod version;

pub use events::EventLog;
pub use events::Read;
pub use header::Connection;
pub use header::ConnectionOption;
pub use header::Headers;
pub use message::Incoming;
pub use message::RawStatus;
pub use message::Request;
pub use message::Response;
pub use parse::Parse;
pub use parse::ParseError;
pub use parse::ParseResult;
pub use policy::should_keep_alive;
pub use stream::AsyncWriter;
pub use stream::ControlChannel;
pub use stream::Stream;
pub use stream::StreamState;
pub use stream::Transfer;
pub use stream::TransferCmd;
pub use version::HttpVersion;
