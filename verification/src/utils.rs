//! Derived display values, the text templates and the HTML page.

pub mod display_templates;
pub mod formatters;
pub mod server;
pub mod web;
