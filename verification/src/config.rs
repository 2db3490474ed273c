//! Runtime configuration of the exporter.
//!
//! The surrounding process binds these values from its command line and
//! environment and hands the finished structure to the library; the methods
//! here derive from it the values the poller and the HTTP surface run on.

use vstd::prelude::*;

use crate::textfmt::dec_rep;
use crate::textfmt::u64_to_string;

verus! {

/// Validated runtime configuration: where the device is polled, where the
/// metrics are served, and how patient the poller is.
#[derive(Debug, Clone)]
pub struct Config {
    /// Device IP address or hostname.
    pub host: String,
    /// Port the metrics are exposed on.
    pub port: u16,
    /// Seconds between two polls of the device.
    pub poll_interval: u64,
    /// Log level for the surrounding process (trace, debug, info, warn, error).
    pub log_level: String,
    /// Seconds before an unanswered device request is abandoned.
    pub http_timeout: u64,
}

/// The whole-second component of a `Duration`, as `Duration::as_secs`
/// reports it.
pub uninterp spec fn duration_secs(d: core::time::Duration) -> u64;

/// The subsecond component of a `Duration` in nanoseconds, as
/// `Duration::subsec_nanos` reports it.
pub uninterp spec fn duration_subsec_nanos(d: core::time::Duration) -> u32;

/// Relies on core::time::Duration::from_secs: the result holds exactly the
/// given number of whole seconds and no subsecond part.
pub assume_specification[ core::time::Duration::from_secs ](secs: u64) -> (d: core::time::Duration)
    ensures
        duration_secs(d) == secs,
        duration_subsec_nanos(d) == 0,
;

impl Config {
    /// The pause between two polls of the device.
    pub fn poll_interval_duration(&self) -> (d: core::time::Duration)
        ensures
            duration_secs(d) == self.poll_interval,
            duration_subsec_nanos(d) == 0,
    {
        core::time::Duration::from_secs(self.poll_interval)
    }

    /// The bound on one device request.
    pub fn http_timeout_duration(&self) -> (d: core::time::Duration)
        ensures
            duration_secs(d) == self.http_timeout,
            duration_subsec_nanos(d) == 0,
    {
        core::time::Duration::from_secs(self.http_timeout)
    }

    /// The address the metrics server listens on: every interface, at the
    /// configured port.
    pub fn metrics_bind_address(&self) -> (r: String)
        ensures
            r@ == "0.0.0.0:"@ + dec_rep(self.port as nat),
    {
        let mut r = "0.0.0.0:".to_owned();
        r.append(u64_to_string(self.port as u64).as_str());
        r
    }

    /// The device endpoint the poller fetches from.
    pub fn homewizard_url(&self) -> (r: String)
        ensures
            r@ == "http://"@ + self.host@ + "/api/v1/data"@,
    {
        let mut r = "http://".to_owned();
        r.append(self.host.as_str());
        r.append("/api/v1/data");
        r
    }
}

} // verus!
