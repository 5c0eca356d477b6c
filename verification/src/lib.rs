//! Embedding layer for a userspace overlay-network engine.
//!
//! The engine is reached through a small handle-based call interface. This
//! crate holds every decision of the layer above it: which call comes next,
//! what a status means, which strings may cross the boundary, and what is
//! handed back to the caller. It performs no call itself. Each operation is a
//! value that names the call to make now; the driver makes it and hands the
//! reply back, and the operation answers with its successor or its result.

pub mod text;
pub mod error;
pub mod network;
pub mod call;
pub mod status;
pub mod pending;
pub mod stream;
pub mod listener;
pub mod server;
pub mod adapter;
pub mod builder;
pub mod run;
pub mod relay;

pub use adapter::{AsyncListener, Poll};
pub use builder::{Build, LogMode, ServerBuilder, Stage};
pub use call::{Call, Reply, Step, ERRMSG_BUFFER_LEN, NO_LOG_FD};
pub use error::{Error, OsError};
pub use listener::Listener;
pub use network::Network;
pub use pending::{FromHandle, Pending};
pub use relay::{LogRelay, Record, Relayed, LOG_CHUNK_LEN};
pub use server::Server;
pub use stream::Stream;
pub use text::{CText, NulError};
