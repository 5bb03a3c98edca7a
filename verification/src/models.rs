//! The data that a weather record holds.

pub mod weather;
