//! Dynamic-DNS updater core: keeps one DNS address record in step with the
//! global IPv6 address that a network interface currently holds.
//!
//! The library holds the decisions: which interface addresses are candidates,
//! which candidate is active, and when the remote record is rewritten. The
//! operating-system query, the reachability probe and the HTTP calls are made
//! by the caller, which feeds their results back as plain values.
use vstd::prelude::*;

pub mod interface;
pub mod reconcile;
pub mod record;
pub mod select;
pub mod settings;

verus! {

/// The views of a sequence of strings.
pub open spec fn string_views(s: Seq<String>) -> Seq<Seq<char>> {
    s.map_values(|x: String| x@)
}

} // verus!
