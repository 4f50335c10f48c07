//! Parts of the service's configuration that the library reads.

use vstd::prelude::*;

verus! {

/// Where the service listens.
pub struct ServerConfig {
    pub port: u16,
}

/// How often the Open Charge Map cache is refreshed.
pub struct CacheConfig {
    pub refresh_interval_seconds: u64,
}

/// The Open Charge Map endpoint.
pub struct OpenChargeMapConfig {
    pub url: String,
}

/// The Overpass (OpenStreetMap) endpoint.
pub struct OsmConfig {
    pub url: String,
}

} // verus!
