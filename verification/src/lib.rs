//! Verified core of a caching proxy for EV charging station data.
//!
//! The library holds the decisions that the service makes on the data it
//! caches: how connector names are normalised, how rows of a regional CSV
//! dataset are grouped into stations and which writes a sync performs, what
//! an OpenStreetMap node's tags say about its station, which request is sent
//! to Open Charge Map and which records a returned station gives, how an
//! address is formatted, which connectors pass a query's filters and how
//! they are put under their stations. Network, database and file access, and
//! all arithmetic on coordinates and power, live outside the library.

pub mod auth;
pub mod config;
pub mod error;
pub mod flanders;
pub mod health;
pub mod ocm;
pub mod osm;
pub mod stations;
pub mod text;
pub mod utils;
