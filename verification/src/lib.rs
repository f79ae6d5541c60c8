//! Verified core of a filesystem-mutation monitor.
//!
//! Kernel hooks observe delete and rename operations, filter them by the
//! device id of the filesystem under watch, assemble a fixed-layout event
//! record in a per-CPU scratch slot, and publish it over a bounded, lossy
//! transport to a user-space ingestion loop that decodes the raw records.
//!
//! This crate holds the logic of that pipeline over plain values: every
//! kernel-object dereference is modelled as a fallible lookup whose result
//! the hook handlers receive as an argument, so the handlers, the record
//! schema, the truncation discipline, the transport and the decoder are all
//! verified. The unverified edges (attaching the hook programs, reading the
//! ring, printing) live outside this crate.

pub mod codec;
pub mod filter;
pub mod hooks;
pub mod schema;
pub mod scratch;
pub mod strbuf;
pub mod transport;

pub use strbuf::{MAX_FILENAME_LEN, MAX_PATH_LEN, NAME_BUF_LEN, PATH_BUF_LEN};
