pub mod cleanup;
pub mod crd;
pub mod fixtures;
pub mod laws;
pub mod operations;
pub mod promises;
pub mod reconcile;
pub mod resources;
pub mod scenarios;
pub mod stand_ins;
