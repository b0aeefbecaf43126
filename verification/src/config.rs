//! Configuration needed to run Reacher.

use vstd::prelude::*;

verus! {

/// Configuration needed to run Reacher.
#[derive(Debug, Clone)]
pub struct ReacherConfig {
    /// Identifier for the service currently running Reacher.
    pub backend_name: String,
    /// The address of the WebDriver server.
    pub webdriver_addr: String,
}

impl Default for ReacherConfig {
    fn default() -> (r: Self)
        ensures
            r.backend_name@ == "backend-dev"@,
            r.webdriver_addr@ == "http://localhost:9515"@,
    {
        ReacherConfig {
            backend_name: String::from_str("backend-dev"),
            webdriver_addr: String::from_str("http://localhost:9515"),
        }
    }
}

} // verus!
