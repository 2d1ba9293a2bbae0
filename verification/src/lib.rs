//! Client-side logic for a remote object-storage file-transfer protocol.
//!
//! Large files travel through a three-phase upload session (start, append,
//! finish); small files go up in a single request.  This crate holds the
//! data-only request descriptors for the wire operations, the chunk plan that
//! splits a file into bounded windows, and the session state machine that
//! decides, from the file length and the bytes committed so far, which
//! request to issue next.  The network transport, the local file reads and
//! the JSON encoding of the descriptors live outside this crate.

use vstd::prelude::*;

pub mod chunks;
pub mod orchestrator;
pub mod protocol;

verus! {

/// Per-request body-size cap, a conservative margin under the service's
/// single-request limit.
pub const MAX_BODY_SIZE: u64 = 140_000_000;

/// Absolute per-file cap, a conservative margin under the service's largest
/// supported file.
pub const MAX_FILE_SIZE: u64 = 349_000_000_000;

} // verus!
