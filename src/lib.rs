//! Keeps a flight simulator's SimConnect configuration pointed at a fixed
//! static IPv4 endpoint, and drives the discovery beacon that advertises it.

pub mod text;
pub mod schema;
pub mod reconcile;
pub mod codepage;
pub mod paths;
pub mod beacon;
pub mod state;
