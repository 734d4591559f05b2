//! The configuration snapshot consulted once per clipboard event: endpoint
//! lists, feature enables, the payload size limit, and an optional bearer
//! token.

use vstd::prelude::*;
use vstd::string::StringExecFns;

verus! {

/// An immutable-per-use configuration snapshot. It is read fresh on every
/// clipboard-change event; this core never mutates it.
#[derive(Clone, Debug)]
pub struct Config {
    /// Ordered endpoint list for text uploads (linear failover order).
    pub text_urls: Vec<String>,
    /// Ordered endpoint list for file and image uploads.
    pub file_urls: Vec<String>,
    /// Whether text payloads are uploaded at all.
    pub enable_text: bool,
    /// Whether file and image payloads are uploaded at all.
    pub enable_file: bool,
    /// Whether clipboard changes are handled at all.
    pub enable_monitoring: bool,
    /// Maximum payload size, in whole megabytes.
    pub max_file_size_mb: u64,
    /// Log verbosity label; not interpreted by this core.
    pub log_level: String,
    /// Optional bearer token attached to every upload request.
    pub auth_token: Option<String>,
}

impl Default for Config {
    /// The hardcoded defaults used when no stored configuration can be
    /// read: one local text endpoint, one local file endpoint, everything
    /// enabled, a 50 MB size limit, and no token.
    fn default() -> (c: Config)
        ensures
            c.text_urls@.len() == 1,
            c.text_urls@[0]@ == "http://localhost:9501/text"@,
            c.file_urls@.len() == 1,
            c.file_urls@[0]@ == "http://localhost:9501/upload"@,
            c.enable_text,
            c.enable_file,
            c.enable_monitoring,
            c.max_file_size_mb == 50,
            c.log_level@ == "info"@,
            c.auth_token is None,
    {
        let mut text_urls: Vec<String> = Vec::new();
        text_urls.push(String::from_str("http://localhost:9501/text"));
        let mut file_urls: Vec<String> = Vec::new();
        file_urls.push(String::from_str("http://localhost:9501/upload"));
        Config {
            text_urls,
            file_urls,
            enable_text: true,
            enable_file: true,
            enable_monitoring: true,
            max_file_size_mb: 50,
            log_level: String::from_str("info"),
            auth_token: None,
        }
    }
}

} // verus!
