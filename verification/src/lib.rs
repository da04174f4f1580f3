//! Session-management core of an interactive remote-shell client.
//!
//! The crate holds the decisions of the client: which sessions exist, how a
//! connection is established step by step, how channel output is batched and
//! paced, and how input is written out. The transport itself is driven by the
//! caller, who performs each requested action and reports what came of it.

pub mod connect;
pub mod errors;
pub mod input;
pub mod payload;
pub mod profile;
pub mod registry;
pub mod stream;
pub mod trace;
pub mod text;
