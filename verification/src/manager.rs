//! The license manager: the server handle through which licenses are
//! registered, fetched and revoked.

use vstd::prelude::*;
use crate::api::Api;

verus! {

/// Seconds the connectivity probe waits before the machine counts as offline.
pub const INTERNET_CHECK_TIMEOUT_SECS: u64 = 1;

/// Keeps the license of this machine in step with the license server.
pub struct LicenseManager {
    pub api: Api,
}

impl LicenseManager {
    /// A manager that talks to the server through `api`.
    pub fn new(api: Api) -> (r: LicenseManager)
        ensures
            r.api == api,
    {
        LicenseManager { api }
    }
}

} // verus!
