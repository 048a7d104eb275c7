use vstd::prelude::*;

verus! {

/// Where the HTTP server listens.
#[derive(Debug, Clone)]
pub struct ApplicationSettings {
    pub port: u16,
    pub host: String,
}

} // verus!
