use vstd::prelude::*;
use vstd::string::StringExecFns;

use crate::strings::{strip_prefix_all, trim_start_matches_str};

verus! {

/// Where the document store lives.
#[derive(Debug, Clone)]
pub struct Database {
    pub uri: String,
    pub db_name: String,
}

/// The service configuration, as the configuration file carries it.
#[derive(Debug, Clone)]
pub struct AppConfig {
    pub database: Database,
    pub secret: String,
    pub statistic_host: String,
}

impl AppConfig {
    /// The URL under the statistics host for a stored file path: the
    /// leading `./` and `/upload` markers are trimmed off and the
    /// rest hangs off the host.
    pub fn get_statistic_url(&self, path: &str) -> (r: String)
        ensures
            r@ == self.statistic_host@ + "/"@ + strip_prefix_all(
                strip_prefix_all(path@, "./"@),
                "/upload"@,
            ),
    {
        let step: String = trim_start_matches_str(path, "./");
        let rest: String = trim_start_matches_str(step.as_str(), "/upload");
        let mut out: String = self.statistic_host.clone();
        out.append("/");
        out.append(rest.as_str());
        out
    }
}

} // verus!
