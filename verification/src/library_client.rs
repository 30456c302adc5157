//! The library service client configured with the service's base URL.

use vstd::prelude::*;
use crate::text::join2;

verus! {

/// The library service configured by its base URL.
#[derive(Clone)]
#[allow(non_snake_case)]
pub struct ReqwestLibraryClient {
    pub BaseURL: String,
}

impl ReqwestLibraryClient {
    /// Endpoint to which a student's library account is posted.
    pub fn register_url(&self) -> (url: String)
        ensures
            url@ == self.BaseURL@ + "/api/register"@,
    {
        join2(self.BaseURL.as_str(), "/api/register")
    }
}

} // verus!
