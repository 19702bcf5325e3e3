//! Lifecycle control for an ingest node: the node's state machine, its peer
//! set, and the record of block ranges that no node scanned; and the
//! mnemonic phrases from which a wallet derives its keys.
//!
//! The [`service::IngestService`] answers one request at a time. It does no
//! I/O: what the ledger and the enclave returned is handed to it, and what it
//! changed is written to the persistence layer by its caller, who takes a
//! checkpoint before a change and has the outcome of the write settled by
//! [`service::IngestService::confirm_persisted`].

pub mod block_range;
pub mod controller;
pub mod error;
pub mod laws;
pub mod mnemonic;
pub mod peer_uri;
pub mod service;
