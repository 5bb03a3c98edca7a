//! Formatting and presentation of current-weather records: unit conversion,
//! derived display values, text templates for the terminal and an HTML page.

pub mod api;
pub mod models;
pub mod style;
pub mod text;
pub mod utils;
