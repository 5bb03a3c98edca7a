//! What is decided around a request to the weather service.

pub mod clients;
