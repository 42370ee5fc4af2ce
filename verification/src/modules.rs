//! The household's modules, one file each.

pub mod cloud;
pub mod dashboard;
pub mod dining;
pub mod finance;
pub mod gifts;
pub mod grocery;
pub mod household;
pub mod maintenance;
pub mod registry;
pub mod settings;
pub mod travel;
