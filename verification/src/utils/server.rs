//! What the local web server serves.

use vstd::prelude::*;

verus! {

/// The page that is served: one HTML document, made once before the server
/// starts and only read afterwards.
#[derive(Clone, Debug)]
pub struct WeatherState {
    pub html: String,
}

} // verus!
