//! Verified core of a parallel, resumable artifact downloader.
//!
//! The library holds the decision logic of the download engine: proxy
//! configuration checks, destination-path sanitization, progress
//! aggregation, the per-file transfer state machine, post-transfer
//! validation, and batch orchestration planning.  All I/O (network,
//! file system, event emission) is performed by the host around these
//! verified decisions.  The chat conversation data types the host's
//! command surface exchanges live here as well.

use vstd::prelude::*;

pub mod chat;
pub mod decimal;
pub mod errors;
pub mod orchestrator;
pub mod paths;
pub mod progress;
pub mod proxy;
pub mod transfer;
pub mod validate;

verus! {

/// The view of an optional string: its character sequence, if present.
pub open spec fn opt_str_view(o: Option<String>) -> Option<Seq<char>> {
    match o {
        Some(s) => Some(s@),
        None => None,
    }
}

/// Prefixes an error description as the engine reports it to callers.
pub fn err_to_string(e: &str) -> (r: String)
    ensures
        r@ == "Error: "@ + e@,
{
    let mut s: String = "Error: ".to_owned();
    s.append(e);
    s
}

} // verus!
