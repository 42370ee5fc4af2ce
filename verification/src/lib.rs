//! Household management without the I/O: what to ask the database, how to
//! read its answers, and what to show on screen.

pub mod db;
pub mod modules;
pub mod schema;
pub mod seed;
pub mod stamp;
pub mod text;
pub mod ui;
