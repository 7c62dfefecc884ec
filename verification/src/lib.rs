//! A relay for the latest state of a running process.
//!
//! A process streams its state, one line per update, over a raw socket.
//! Other clients ask for the latest state, and read and replace a blob of
//! scores, over HTTP. The two sides meet in one place only, the shared
//! store.
//!
//! - [`frame`] holds the text rules of the line protocol: trimming,
//!   heartbeats, and what a line makes a connection do.
//! - [`slot`] is one text value that is replaced as a whole.
//! - [`store`] is the shared store: two slots, each behind its own lock.
//! - [`ingest`] is what a connection does with each thing it reads.
//! - [`query`] is the three operations of the HTTP side and their replies.
//! - [`history`] is a model of the two slots under any sequence of
//!   requests, with the laws that hold of it. It takes from the locks that
//!   the requests take effect one after the other.
//!
//! The library opens no socket and starts no thread: the program around it
//! reads the lines and serves the routes.

pub mod frame;
pub mod history;
pub mod ingest;
pub mod query;
pub mod slot;
pub mod store;
