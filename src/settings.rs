//! The parts of the configuration that the loop itself reads.
use vstd::prelude::*;

verus! {

/// The monitored interface.
pub struct InterfaceSettings {
    pub name: String,
}

/// The service whose port the reachability probes target.
pub struct WireguardSettings {
    pub port: u16,
}

} // verus!
