//! Declarative client-configuration values.
//!
//! Configuration building is plumbing around the transport layer and stays
//! with the host; only the values that callers choose from are defined here.

use vstd::prelude::*;

verus! {

/// How much padding traffic the client's channels should carry.
#[derive(Debug, Clone, Copy, PartialEq, Eq, Structural)]
pub enum PaddingLevel {
    /// No padding traffic.
    Off,
    /// Reduced padding traffic.
    Reduced,
    /// The default amount of padding traffic.
    Normal,
}

} // verus!
