//! The application-level settings the workflows consume: where the service
//! listens and the public base URL that confirmation links are built from.
//! Loading these from files and the environment happens outside the crate;
//! here they are plain values.

use vstd::prelude::*;

verus! {

/// Settings of the HTTP application itself.
pub struct AppSettings {
    pub host: String,
    pub port: u16,
    pub base_url: String,
}

} // verus!
