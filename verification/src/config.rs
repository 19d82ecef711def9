//! The settings of the daemon.

use vstd::prelude::*;
use vstd::string::*;
use crate::mobile_provider::MobileProvider;
use crate::telegram::Telegram;
use crate::text::strings_view;

verus! {

/// How much the daemon logs.
#[derive(Clone, Copy, Debug, PartialEq, Eq, Structural)]
pub enum LogLevel {
    Critical,
    Error,
    Warning,
    Info,
    Debug,
    Trace,
}

/// The settings of the uplink benchmark.
#[derive(Clone, Debug, PartialEq, Eq)]
pub struct SpeedTest {
    pub speedtest_cli_path: String,
    pub crontab: String,
}

/// The settings of the reachability probe.
#[derive(Clone, Debug, PartialEq, Eq)]
pub struct Ping {
    /// The address to probe.
    pub server: String,
    pub crontab: String,
}

/// Every setting of the daemon.
#[derive(Clone, Debug, PartialEq, Eq)]
pub struct Config {
    pub log_level: LogLevel,
    pub ipset_shaper_name: String,
    pub ipset_acl_name: String,
    pub ipset_no_shape_name: String,
    pub http_listen: String,
    pub bytes_unlimited_limit: usize,
    pub dhcpd_leases: String,
    pub blacklisted_macs: Vec<String>,
    pub no_shaping_ips: Vec<String>,
    pub no_shaping_timeout: u64,
    pub shaping_timeout: u64,
    pub speedtest: SpeedTest,
    pub ping: Ping,
    pub telegram: Option<Telegram>,
    pub mobile_provider: Option<MobileProvider>,
    pub persistent_state_path: String,
}

/// Whether `list` holds the text `wanted`.
pub fn contains_text(list: &Vec<String>, wanted: &str) -> (found: bool)
    ensures
        found == strings_view(list@).contains(wanted@),
{
    let wanted_text = String::from_str(wanted);
    let mut i: usize = 0;
    while i < list.len()
        invariant
            i <= list@.len(),
            wanted_text@ == wanted@,
            forall|j: int| 0 <= j < i ==> (#[trigger] list@[j])@ != wanted@,
        decreases list.len() - i,
    {
        if list[i] == wanted_text {
            assert(strings_view(list@)[i as int] == wanted@);
            return true;
        }
        i += 1;
    }
    assert forall|j: int| 0 <= j < strings_view(list@).len() implies strings_view(list@)[j]
        != wanted@ by {
        assert(strings_view(list@)[j] == list@[j]@);
    }
    false
}

impl Config {
    /// Whether traffic of the client at `ip` is exempt from shaping.
    pub fn is_no_shaping_ip(&self, ip: &str) -> (exempt: bool)
        ensures
            exempt == strings_view(self.no_shaping_ips@).contains(ip@),
    {
        contains_text(&self.no_shaping_ips, ip)
    }
}

} // verus!
