use vstd::prelude::*;

verus! {

/// Settings created once at startup and handed read-only to every request
/// task: the listen port, the upstream base URL, and the store location.
#[derive(Clone, Debug)]
pub struct Config {
    pub port: u16,
    pub lm_studio_url: String,
    pub database_url: String,
}

} // verus!
