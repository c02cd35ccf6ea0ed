//! Graph model of an interstellar map: catalog reconciliation, activity-based
//! jump risk, wormhole refresh and route projections, as verified decisions
//! that a thin runtime drives against the catalog services and the graph store.

pub mod activity;
pub mod database;
pub mod esi;
pub mod eve_scout;
pub mod projection;
pub mod reconciler;
pub mod risk;
pub mod startup;
pub mod sync;
pub mod wormholes;
