//! What the HTTP front end answers: the computing behind each endpoint. The
//! front end reads the request, the leases and the sets; the functions here
//! turn them into the answer.

use vstd::prelude::*;
use vstd::string::*;
use crate::config::{contains_text, Config};
use crate::dhcp::{clone_text, lease_for, text_view, BindingState, Dhcp, Lease};
use crate::error::Error;
use crate::ipset::{entries_view, Entry, EntryView};
use crate::text::{decimal, strings_view};

verus! {

/// The lower-case form of a text, as `str::to_lowercase` of std gives it.
pub uninterp spec fn lowercased(text: Seq<char>) -> Seq<char>;

/// `str::to_lowercase` of std: the text with every character replaced by its
/// lower-case form, by the rules of Unicode.
#[verifier::external_body]
fn lowercase(text: &str) -> (lower: String)
    ensures
        lower@ == lowercased(text@),
{
    text.to_lowercase()
}

/// Who is asking.
#[derive(Clone, Debug, PartialEq, Eq)]
pub enum Client {
    /// A client whose address is exempt from shaping.
    Whitelist,
    /// A client known by its hardware address, in lower case.
    Mac(String),
}

pub enum ClientView {
    Whitelist,
    Mac(Seq<char>),
}

impl View for Client {
    type V = ClientView;

    open spec fn view(&self) -> ClientView {
        match *self {
            Client::Whitelist => ClientView::Whitelist,
            Client::Mac(mac) => ClientView::Mac(mac@),
        }
    }
}

/// The figures of a connected client.
#[derive(Clone, Copy, Debug, PartialEq, Eq, Structural)]
pub struct ClientConnectionInfo {
    pub bytes_sent: usize,
    pub bytes_unlimited_limit: usize,
    pub shaper_reset_secs: u64,
    pub connection_forget_secs: u64,
}

/// Whether and how a client is connected.
#[derive(Clone, Copy, Debug, PartialEq, Eq, Structural)]
pub enum InternetConnectionStatus {
    Inactive,
    Connected(ClientConnectionInfo),
    ClientBlacklisted,
}

/// The answer to a client that asks for its status.
#[derive(Clone, Copy, Debug, PartialEq, Eq, Structural)]
pub struct ServiceInfo {
    pub internet_connection_status: InternetConnectionStatus,
    pub internet_clients_connected: usize,
    pub is_internet_available: bool,
}

/// The first member with the address `ip`.
pub open spec fn entry_for(entries: Seq<EntryView>, ip: Seq<char>) -> Option<EntryView>
    decreases entries.len(),
{
    if entries.len() == 0 {
        None
    } else if entries[0].ip == ip {
        Some(entries[0])
    } else {
        entry_for(entries.skip(1), ip)
    }
}

/// Finds the first member with the address `ip`.
pub fn find_entry<'a>(entries: &'a Vec<Entry>, ip: &str) -> (found: Option<&'a Entry>)
    ensures
        found is Some <==> entry_for(entries_view(entries@), ip@) is Some,
        found matches Some(e) ==> entry_for(entries_view(entries@), ip@) == Some(e@),
{
    let wanted = String::from_str(ip);
    let ghost all = entries_view(entries@);
    let mut i: usize = 0;
    assert(all.skip(0) =~= all);
    while i < entries.len()
        invariant
            i <= entries@.len(),
            wanted@ == ip@,
            all == entries_view(entries@),
            entry_for(all, ip@) == entry_for(all.skip(i as int), ip@),
        decreases entries.len() - i,
    {
        assert(all.skip(i as int)[0] == entries@[i as int]@);
        assert(all.skip(i as int).skip(1) =~= all.skip(i + 1));
        if entries[i].ip == wanted {
            return Some(&entries[i]);
        }
        i += 1;
    }
    assert(all.skip(i as int).len() == 0);
    None
}

/// The seconds of an optional span of time; 0 where there is none.
pub open spec fn secs_or_zero(timeout: Option<crate::time::Interval>) -> u64 {
    match timeout {
        Some(t) => t.secs,
        None => 0,
    }
}

/// The status of the client at `ip`: connected where the access list holds
/// the address, with the byte count and the reset time that the shaper has
/// for it, and inactive otherwise.
pub open spec fn connection_status(
    limit: usize,
    acl: Seq<EntryView>,
    shaper: Seq<EntryView>,
    ip: Seq<char>,
) -> InternetConnectionStatus {
    match entry_for(acl, ip) {
        Some(access) => InternetConnectionStatus::Connected(
            ClientConnectionInfo {
                bytes_sent: match entry_for(shaper, ip) {
                    Some(shaped) => match shaped.bytes {
                        Some(n) => n,
                        None => 0,
                    },
                    None => 0,
                },
                bytes_unlimited_limit: limit,
                shaper_reset_secs: match entry_for(shaper, ip) {
                    Some(shaped) => secs_or_zero(shaped.timeout),
                    None => 0,
                },
                connection_forget_secs: secs_or_zero(access.timeout),
            },
        ),
        None => InternetConnectionStatus::Inactive,
    }
}

/// The lower-case forms of the texts of a list.
pub open spec fn lowercased_all(list: Seq<Seq<char>>) -> Seq<Seq<char>> {
    list.map_values(|text: Seq<char>| lowercased(text))
}

/// Whether a hardware address, given in lower case, is on the black list,
/// whatever the case in which the list writes it.
pub open spec fn blacklisted(list: Seq<Seq<char>>, mac: Seq<char>) -> bool {
    lowercased_all(list).contains(mac)
}

/// Whether the client is on the black list.
pub open spec fn client_blacklisted(list: Seq<Seq<char>>, client: ClientView) -> bool {
    match client {
        ClientView::Whitelist => false,
        ClientView::Mac(mac) => blacklisted(list, mac),
    }
}

/// What the daemon tells the client at `ip` of its connection.
pub open spec fn service_info(
    config: &Config,
    client: ClientView,
    ip: Seq<char>,
    shaper: Seq<EntryView>,
    acl: Seq<EntryView>,
    available: bool,
) -> ServiceInfo {
    ServiceInfo {
        internet_connection_status: if client_blacklisted(
            strings_view(config.blacklisted_macs@),
            client,
        ) {
            InternetConnectionStatus::ClientBlacklisted
        } else {
            connection_status(config.bytes_unlimited_limit, acl, shaper, ip)
        },
        internet_clients_connected: shaper.len() as usize,
        is_internet_available: available,
    }
}

/// Where a client is registered.
#[derive(Clone, Debug, PartialEq, Eq)]
pub struct Registration {
    /// The set that takes the client besides the access list.
    pub set_name: String,
    /// `no_shape` or `shaper`, for the log.
    pub label: String,
    /// How long the client stays registered, in seconds.
    pub timeout: u64,
}

/// The texts of a list in lower case.
pub fn lowercase_all(list: &Vec<String>) -> (lower: Vec<String>)
    ensures
        strings_view(lower@) == lowercased_all(strings_view(list@)),
{
    let mut lower: Vec<String> = Vec::new();
    let mut i: usize = 0;
    while i < list.len()
        invariant
            i <= list@.len(),
            lower@.len() == i,
            forall|j: int| 0 <= j < i ==> (#[trigger] lower@[j])@ == lowercased(list@[j]@),
        decreases list.len() - i,
    {
        lower.push(lowercase(list[i].as_str()));
        i += 1;
    }
    assert(strings_view(lower@) =~= lowercased_all(strings_view(list@)));
    lower
}

/// Whether a hardware address, given in lower case, is on the black list.
pub fn is_blacklisted(config: &Config, mac: &str) -> (listed: bool)
    ensures
        listed == blacklisted(strings_view(config.blacklisted_macs@), mac@),
{
    let lower = lowercase_all(&config.blacklisted_macs);
    contains_text(&lower, mac)
}

/// Whether the client is on the black list.
pub fn is_client_blacklisted(config: &Config, client: &Client) -> (listed: bool)
    ensures
        listed == client_blacklisted(strings_view(config.blacklisted_macs@), client@),
{
    match client {
        Client::Whitelist => false,
        Client::Mac(mac) => is_blacklisted(config, mac.as_str()),
    }
}

/// Who the client at `ip` is: one whose address is exempt from shaping, or
/// else the holder of the first lease for the address, known by the hardware
/// address of that lease in lower case. A client without a lease, or with a
/// lease that names no hardware address, is nobody.
pub open spec fn client_of(config: &Config, ip: Seq<char>, leases: Seq<Lease>) -> Option<ClientView> {
    if strings_view(config.no_shaping_ips@).contains(ip) {
        Some(ClientView::Whitelist)
    } else {
        match lease_for(leases, ip) {
            Some(lease) => match lease.mac {
                Some(mac) => Some(ClientView::Mac(lowercased(mac@))),
                None => None,
            },
            None => None,
        }
    }
}

/// Tells who the client at `ip` is. `leases` is looked at only for a client
/// that is not exempt from shaping.
pub fn with_client(config: &Config, ip: &str, leases: &Vec<Lease>) -> (client: Result<Client, Error>)
    ensures
        client is Ok <==> client_of(config, ip@, leases@) is Some,
        client matches Ok(c) ==> client_of(config, ip@, leases@) == Some(c@),
        client matches Err(e) ==> e == Error::NotFound,
{
    if config.is_no_shaping_ip(ip) {
        return Ok(Client::Whitelist);
    }
    let lease = match Dhcp::of_ip(leases, ip) {
        Ok(lease) => lease,
        Err(e) => {
            return Err(e);
        },
    };
    assert(text_view(lease.mac) == text_view(lease_for(leases@, ip@)->0.mac));
    match &lease.mac {
        Some(mac) => Ok(Client::Mac(lowercase(mac.as_str()))),
        None => Err(Error::NotFound),
    }
}

/// Answers a client that asks for its status.
pub fn client_get(
    config: &Config,
    client: &Client,
    ip: &str,
    shaper: &Vec<Entry>,
    acl: &Vec<Entry>,
    available: bool,
) -> (info: ServiceInfo)
    ensures
        info == service_info(
            config,
            client@,
            ip@,
            entries_view(shaper@),
            entries_view(acl@),
            available,
        ),
{
    let status = if is_client_blacklisted(config, client) {
        InternetConnectionStatus::ClientBlacklisted
    } else {
        match find_entry(acl, ip) {
            Some(access) => {
                let shaped = find_entry(shaper, ip);
                InternetConnectionStatus::Connected(
                    ClientConnectionInfo {
                        bytes_sent: match shaped {
                            Some(s) => match s.bytes {
                                Some(n) => n,
                                None => 0,
                            },
                            None => 0,
                        },
                        bytes_unlimited_limit: config.bytes_unlimited_limit,
                        shaper_reset_secs: match shaped {
                            Some(s) => match s.timeout {
                                Some(t) => t.secs,
                                None => 0,
                            },
                            None => 0,
                        },
                        connection_forget_secs: match access.timeout {
                            Some(t) => t.secs,
                            None => 0,
                        },
                    },
                )
            },
            None => InternetConnectionStatus::Inactive,
        }
    };
    ServiceInfo {
        internet_connection_status: status,
        internet_clients_connected: shaper.len(),
        is_internet_available: available,
    }
}

/// Decides where a client that asks for access is registered: an exempt
/// client in the set of the exempt, any other in the shaper, each for the
/// time that the settings give; a client on the black list nowhere.
pub fn client_register(config: &Config, client: &Client) -> (registration: Result<
    Registration,
    Error,
>)
    ensures
        registration is Err <==> client_blacklisted(
            strings_view(config.blacklisted_macs@),
            client@,
        ),
        registration matches Err(e) ==> e == Error::Blacklisted,
        registration matches Ok(r) ==> (client@ is Whitelist ==> r.set_name@
            == config.ipset_no_shape_name@ && r.label@ == "no_shape"@ && r.timeout
            == config.no_shaping_timeout),
        registration matches Ok(r) ==> (client@ is Mac ==> r.set_name@ == config.ipset_shaper_name@
            && r.label@ == "shaper"@ && r.timeout == config.shaping_timeout),
{
    match client {
        Client::Whitelist => Ok(
            Registration {
                set_name: config.ipset_no_shape_name.clone(),
                label: String::from_str("no_shape"),
                timeout: config.no_shaping_timeout,
            },
        ),
        Client::Mac(mac) => {
            if is_blacklisted(config, mac.as_str()) {
                Err(Error::Blacklisted)
            } else {
                Ok(
                    Registration {
                        set_name: config.ipset_shaper_name.clone(),
                        label: String::from_str("shaper"),
                        timeout: config.shaping_timeout,
                    },
                )
            }
        },
    }
}

/// A lease together with what the access list and the shaper hold for its
/// address.
#[derive(Debug, PartialEq, Eq)]
pub struct DhcpRecord {
    pub ip: String,
    pub mac: Option<String>,
    pub hostname: Option<String>,
    pub client_hostname: Option<String>,
    pub vendor_class_identifier: Option<String>,
    pub starts: Option<String>,
    pub ends: Option<String>,
    pub acl: Option<Entry>,
    pub shaper: Option<Entry>,
}

pub struct DhcpRecordView {
    pub ip: Seq<char>,
    pub mac: Option<Seq<char>>,
    pub hostname: Option<Seq<char>>,
    pub client_hostname: Option<Seq<char>>,
    pub vendor_class_identifier: Option<Seq<char>>,
    pub starts: Option<Seq<char>>,
    pub ends: Option<Seq<char>>,
    pub acl: Option<EntryView>,
    pub shaper: Option<EntryView>,
}

/// An optional member as what it holds.
pub open spec fn entry_view(entry: Option<Entry>) -> Option<EntryView> {
    match entry {
        Some(e) => Some(e@),
        None => None,
    }
}

impl View for DhcpRecord {
    type V = DhcpRecordView;

    open spec fn view(&self) -> DhcpRecordView {
        DhcpRecordView {
            ip: self.ip@,
            mac: text_view(self.mac),
            hostname: text_view(self.hostname),
            client_hostname: text_view(self.client_hostname),
            vendor_class_identifier: text_view(self.vendor_class_identifier),
            starts: text_view(self.starts),
            ends: text_view(self.ends),
            acl: entry_view(self.acl),
            shaper: entry_view(self.shaper),
        }
    }
}

/// The record of a lease.
pub open spec fn record_of(lease: Lease, acl: Seq<EntryView>, shaper: Seq<EntryView>) -> DhcpRecordView {
    DhcpRecordView {
        ip: lease.ip@,
        mac: text_view(lease.mac),
        hostname: text_view(lease.hostname),
        client_hostname: text_view(lease.client_hostname),
        vendor_class_identifier: text_view(lease.vendor_class_identifier),
        starts: text_view(lease.starts),
        ends: text_view(lease.ends),
        acl: entry_for(acl, lease.ip@),
        shaper: entry_for(shaper, lease.ip@),
    }
}

fn clone_found(found: Option<&Entry>) -> (copy: Option<Entry>)
    ensures
        copy is Some <==> found is Some,
        copy matches Some(e) ==> e@ == found->0@,
{
    match found {
        Some(e) => Some(e.clone()),
        None => None,
    }
}

/// Lists the leases, each with its membership in the access list and in the
/// shaper.
pub fn dhcp_leases(leases: &Vec<Lease>, acl: &Vec<Entry>, shaper: &Vec<Entry>) -> (records: Vec<
    DhcpRecord,
>)
    ensures
        records@.len() == leases@.len(),
        forall|i: int|
            0 <= i < leases@.len() ==> (#[trigger] records@[i])@ == record_of(
                leases@[i],
                entries_view(acl@),
                entries_view(shaper@),
            ),
{
    let mut records: Vec<DhcpRecord> = Vec::new();
    let mut i: usize = 0;
    while i < leases.len()
        invariant
            i <= leases@.len(),
            records@.len() == i,
            forall|j: int|
                0 <= j < i ==> (#[trigger] records@[j])@ == record_of(
                    leases@[j],
                    entries_view(acl@),
                    entries_view(shaper@),
                ),
        decreases leases.len() - i,
    {
        let lease = &leases[i];
        let record = DhcpRecord {
            ip: lease.ip.clone(),
            mac: clone_text(&lease.mac),
            hostname: clone_text(&lease.hostname),
            client_hostname: clone_text(&lease.client_hostname),
            vendor_class_identifier: clone_text(&lease.vendor_class_identifier),
            starts: clone_text(&lease.starts),
            ends: clone_text(&lease.ends),
            acl: clone_found(find_entry(acl, lease.ip.as_str())),
            shaper: clone_found(find_entry(shaper, lease.ip.as_str())),
        };
        records.push(record);
        i += 1;
    }
    records
}

/// A gauge with one sample, in the text format of Prometheus.
pub open spec fn gauge_text(name: Seq<char>, help: Seq<char>, value: nat) -> Seq<char> {
    "# HELP "@ + name + " "@ + help + "\n# TYPE "@ + name + " gauge\n"@ + name + " "@ + decimal(
        value,
    ) + "\n"@
}

/// Renders a gauge through `prometheus_exporter_base`: a metric built with
/// `PrometheusMetric::build`, given one instance without labels or timestamp
/// by `render_and_append_instance`, and rendered by `render`. The crate
/// writes the help line, the type line and the sample line, each ended by a
/// line feed, and shows the value as std shows an integer.
#[verifier::external_body]
fn render_gauge(name: &str, help: &str, value: usize) -> (text: String)
    ensures
        text@ == gauge_text(name@, help@, value as nat),
{
    prometheus_exporter_base::PrometheusMetric::build()
        .with_name(name)
        .with_metric_type(prometheus_exporter_base::MetricType::Gauge)
        .with_help(help)
        .build()
        .render_and_append_instance(
            &prometheus_exporter_base::PrometheusInstance::new().with_value(value),
        )
        .render()
}

/// How many leases are in the state `state`.
pub open spec fn count_in_state(leases: Seq<Lease>, state: BindingState) -> nat
    decreases leases.len(),
{
    if leases.len() == 0 {
        0
    } else {
        count_in_state(leases.drop_last(), state) + if leases.last().binding_state == state {
            1nat
        } else {
            0nat
        }
    }
}

/// Counts the leases in the state `state`.
pub fn count_leases(leases: &Vec<Lease>, state: BindingState) -> (n: usize)
    ensures
        n == count_in_state(leases@, state),
{
    let mut n: usize = 0;
    let mut i: usize = 0;
    assert(leases@.take(0) =~= Seq::empty());
    while i < leases.len()
        invariant
            i <= leases@.len(),
            n <= i,
            n == count_in_state(leases@.take(i as int), state),
        decreases leases.len() - i,
    {
        assert(leases@.take(i + 1).drop_last() =~= leases@.take(i as int));
        assert(leases@.take(i + 1).last() == leases@[i as int]);
        if leases[i].binding_state == state {
            n += 1;
        }
        i += 1;
    }
    assert(leases@.take(i as int) =~= leases@);
    n
}

/// The gauge of the leases in one state.
pub open spec fn lease_gauge(label: Seq<char>, leases: Seq<Lease>, state: BindingState) -> Seq<char> {
    gauge_text(
        "ratzek_dhcp_leases_"@ + label,
        "Number of "@ + label + " DHCP leases"@,
        count_in_state(leases, state),
    )
}

/// Everything the daemon exports to Prometheus.
pub open spec fn metrics_text(
    available: bool,
    acl_clients: nat,
    shaper_clients: nat,
    leases: Seq<Lease>,
) -> Seq<char> {
    gauge_text(
        "ratzek_internet_available"@,
        "Flag of wide internet availability"@,
        if available {
            1
        } else {
            0
        },
    ) + gauge_text("ratzek_clients_in_acl"@, "Number of clients in ACL"@, acl_clients)
        + gauge_text("ratzek_clients_in_shaper"@, "Number of clients in shaper"@, shaper_clients)
        + lease_gauge("free"@, leases, BindingState::Free) + lease_gauge(
        "active"@,
        leases,
        BindingState::Active,
    ) + lease_gauge("abandoned"@, leases, BindingState::Abandoned)
}

fn render_lease_gauge(label: &str, leases: &Vec<Lease>, state: BindingState) -> (text: String)
    ensures
        text@ == lease_gauge(label@, leases@, state),
{
    let mut name = String::from_str("ratzek_dhcp_leases_");
    name.append(label);
    let mut help = String::from_str("Number of ");
    help.append(label);
    help.append(" DHCP leases");
    render_gauge(name.as_str(), help.as_str(), count_leases(leases, state))
}

/// Renders the metrics of the daemon: whether the wide network is reachable,
/// how many clients the access list and the shaper hold, and how many leases
/// are free, active and abandoned.
pub fn prometheus_exporter(
    available: bool,
    acl_clients: usize,
    shaper_clients: usize,
    leases: &Vec<Lease>,
) -> (text: String)
    ensures
        text@ == metrics_text(available, acl_clients as nat, shaper_clients as nat, leases@),
{
    let flag: usize = if available {
        1
    } else {
        0
    };
    let mut text = render_gauge(
        "ratzek_internet_available",
        "Flag of wide internet availability",
        flag,
    );
    text.append(
        render_gauge("ratzek_clients_in_acl", "Number of clients in ACL", acl_clients).as_str(),
    );
    text.append(
        render_gauge(
            "ratzek_clients_in_shaper",
            "Number of clients in shaper",
            shaper_clients,
        ).as_str(),
    );
    text.append(render_lease_gauge("free", leases, BindingState::Free).as_str());
    text.append(render_lease_gauge("active", leases, BindingState::Active).as_str());
    text.append(render_lease_gauge("abandoned", leases, BindingState::Abandoned).as_str());
    text
}

} // verus!
