use ala_archa_backend::config::{Config, LogLevel, Ping, SpeedTest};
use ala_archa_backend::dhcp::{BindingState, Dhcp, Lease};
use ala_archa_backend::error::Error;
use ala_archa_backend::http::{
    client_get, client_register, dhcp_leases, find_entry, is_blacklisted, prometheus_exporter,
    with_client, Client, ClientConnectionInfo, DhcpRecord, InternetConnectionStatus, Registration,
    ServiceInfo,
};
use ala_archa_backend::ipset::Entry;
use ala_archa_backend::time::Interval;

fn config() -> Config {
    Config {
        log_level: LogLevel::Info,
        ipset_shaper_name: "shaper".to_string(),
        ipset_acl_name: "acl".to_string(),
        ipset_no_shape_name: "noshape".to_string(),
        http_listen: "127.0.0.1:8080".to_string(),
        bytes_unlimited_limit: 1_000_000,
        dhcpd_leases: "/var/db/dhcpd.leases".to_string(),
        blacklisted_macs: vec!["AA:BB:CC:00:00:01".to_string(), "aa:bb:cc:00:00:02".to_string()],
        no_shaping_ips: vec!["10.0.0.2".to_string()],
        no_shaping_timeout: 600,
        shaping_timeout: 60,
        speedtest: SpeedTest {
            speedtest_cli_path: "/usr/bin/speedtest".to_string(),
            crontab: "0 0 * * * *".to_string(),
        },
        ping: Ping { server: "8.8.8.8".to_string(), crontab: "0 * * * * *".to_string() },
        telegram: None,
        mobile_provider: None,
        persistent_state_path: "/var/lib/state.yaml".to_string(),
    }
}

fn lease(ip: &str, mac: Option<&str>, binding_state: BindingState) -> Lease {
    Lease {
        ip: ip.to_string(),
        mac: mac.map(|m| m.to_string()),
        hostname: Some(format!("host-{}", ip)),
        client_hostname: None,
        vendor_class_identifier: None,
        starts: Some("2 2024/01/02 03:04:05".to_string()),
        ends: None,
        binding_state,
    }
}

fn entry(ip: &str, timeout: Option<u64>, bytes: Option<usize>) -> Entry {
    Entry { ip: ip.to_string(), timeout: timeout.map(Interval::from_secs), bytes }
}

#[test]
fn the_first_lease_for_an_address_is_found() {
    let leases = vec![
        lease("10.0.0.5", Some("AA:00"), BindingState::Free),
        lease("10.0.0.6", None, BindingState::Active),
        lease("10.0.0.5", Some("BB:00"), BindingState::Active),
    ];
    assert_eq!(Dhcp::of_ip(&leases, "10.0.0.5"), Ok(leases[0].clone()));
    assert_eq!(Dhcp::of_ip(&leases, "10.0.0.6"), Ok(leases[1].clone()));
    assert_eq!(Dhcp::of_ip(&leases, "10.0.0.7"), Err(Error::NotFound));
    assert_eq!(Dhcp::of_ip(&Vec::new(), "10.0.0.5"), Err(Error::NotFound));
}

#[test]
fn a_client_is_exempt_or_known_by_its_lower_case_hardware_address() {
    let leases = vec![
        lease("10.0.0.5", Some("AA:BB:CC:00:00:09"), BindingState::Active),
        lease("10.0.0.6", None, BindingState::Active),
        lease("10.0.0.2", Some("AA:BB:CC:00:00:01"), BindingState::Active),
    ];
    assert_eq!(with_client(&config(), "10.0.0.2", &leases), Ok(Client::Whitelist));
    assert_eq!(with_client(&config(), "10.0.0.2", &Vec::new()), Ok(Client::Whitelist));
    assert_eq!(
        with_client(&config(), "10.0.0.5", &leases),
        Ok(Client::Mac("aa:bb:cc:00:00:09".to_string()))
    );
    assert_eq!(with_client(&config(), "10.0.0.6", &leases), Err(Error::NotFound));
    assert_eq!(with_client(&config(), "10.0.0.9", &leases), Err(Error::NotFound));
}

#[test]
fn the_black_list_is_read_in_any_case() {
    assert!(is_blacklisted(&config(), "aa:bb:cc:00:00:01"));
    assert!(is_blacklisted(&config(), "aa:bb:cc:00:00:02"));
    assert!(!is_blacklisted(&config(), "AA:BB:CC:00:00:01"));
    assert!(!is_blacklisted(&config(), "aa:bb:cc:00:00:03"));
    assert!(config().is_no_shaping_ip("10.0.0.2"));
    assert!(!config().is_no_shaping_ip("10.0.0.20"));
}

#[test]
fn the_status_of_a_client_comes_from_the_access_list_and_the_shaper() {
    let shaper = vec![entry("10.0.0.5", Some(30), Some(2048)), entry("10.0.0.8", None, None)];
    let acl = vec![entry("10.0.0.5", Some(3000), None), entry("10.0.0.8", None, Some(5))];
    let client = Client::Mac("aa:bb:cc:00:00:09".to_string());
    assert_eq!(
        client_get(&config(), &client, "10.0.0.5", &shaper, &acl, true),
        ServiceInfo {
            internet_connection_status: InternetConnectionStatus::Connected(ClientConnectionInfo {
                bytes_sent: 2048,
                bytes_unlimited_limit: 1_000_000,
                shaper_reset_secs: 30,
                connection_forget_secs: 3000,
            }),
            internet_clients_connected: 2,
            is_internet_available: true,
        }
    );
    assert_eq!(
        client_get(&config(), &client, "10.0.0.8", &shaper, &acl, false),
        ServiceInfo {
            internet_connection_status: InternetConnectionStatus::Connected(ClientConnectionInfo {
                bytes_sent: 0,
                bytes_unlimited_limit: 1_000_000,
                shaper_reset_secs: 0,
                connection_forget_secs: 0,
            }),
            internet_clients_connected: 2,
            is_internet_available: false,
        }
    );
    assert_eq!(
        client_get(&config(), &client, "10.0.0.5", &Vec::new(), &acl, true)
            .internet_connection_status,
        InternetConnectionStatus::Connected(ClientConnectionInfo {
            bytes_sent: 0,
            bytes_unlimited_limit: 1_000_000,
            shaper_reset_secs: 0,
            connection_forget_secs: 3000,
        })
    );
    assert_eq!(
        client_get(&config(), &client, "10.0.0.9", &shaper, &acl, true),
        ServiceInfo {
            internet_connection_status: InternetConnectionStatus::Inactive,
            internet_clients_connected: 2,
            is_internet_available: true,
        }
    );
    let banned = Client::Mac("aa:bb:cc:00:00:01".to_string());
    assert_eq!(
        client_get(&config(), &banned, "10.0.0.5", &shaper, &acl, true),
        ServiceInfo {
            internet_connection_status: InternetConnectionStatus::ClientBlacklisted,
            internet_clients_connected: 2,
            is_internet_available: true,
        }
    );
    assert_eq!(
        client_get(&config(), &Client::Whitelist, "10.0.0.9", &shaper, &acl, true)
            .internet_connection_status,
        InternetConnectionStatus::Inactive
    );
    assert_eq!(find_entry(&acl, "10.0.0.8"), Some(&acl[1]));
    assert_eq!(find_entry(&acl, "10.0.0.1"), None);
}

#[test]
fn a_client_is_registered_by_its_kind() {
    assert_eq!(
        client_register(&config(), &Client::Whitelist),
        Ok(Registration {
            set_name: "noshape".to_string(),
            label: "no_shape".to_string(),
            timeout: 600,
        })
    );
    assert_eq!(
        client_register(&config(), &Client::Mac("aa:bb:cc:00:00:09".to_string())),
        Ok(Registration { set_name: "shaper".to_string(), label: "shaper".to_string(), timeout: 60 })
    );
    assert_eq!(
        client_register(&config(), &Client::Mac("aa:bb:cc:00:00:01".to_string())),
        Err(Error::Blacklisted)
    );
}

#[test]
fn leases_are_listed_with_their_membership() {
    let leases = vec![
        lease("10.0.0.5", Some("AA:00"), BindingState::Active),
        lease("10.0.0.6", None, BindingState::Free),
    ];
    let acl = vec![entry("10.0.0.5", Some(3000), None)];
    let shaper = vec![entry("10.0.0.6", None, Some(9)), entry("10.0.0.5", Some(1), Some(2))];
    assert_eq!(
        dhcp_leases(&leases, &acl, &shaper),
        vec![
            DhcpRecord {
                ip: "10.0.0.5".to_string(),
                mac: Some("AA:00".to_string()),
                hostname: Some("host-10.0.0.5".to_string()),
                client_hostname: None,
                vendor_class_identifier: None,
                starts: Some("2 2024/01/02 03:04:05".to_string()),
                ends: None,
                acl: Some(entry("10.0.0.5", Some(3000), None)),
                shaper: Some(entry("10.0.0.5", Some(1), Some(2))),
            },
            DhcpRecord {
                ip: "10.0.0.6".to_string(),
                mac: None,
                hostname: Some("host-10.0.0.6".to_string()),
                client_hostname: None,
                vendor_class_identifier: None,
                starts: Some("2 2024/01/02 03:04:05".to_string()),
                ends: None,
                acl: None,
                shaper: Some(entry("10.0.0.6", None, Some(9))),
            },
        ]
    );
    assert!(dhcp_leases(&Vec::new(), &acl, &shaper).is_empty());
}

#[test]
fn the_metrics_are_gauges_in_the_text_format() {
    let leases = vec![
        lease("10.0.0.5", None, BindingState::Active),
        lease("10.0.0.6", None, BindingState::Free),
        lease("10.0.0.7", None, BindingState::Active),
        lease("10.0.0.8", None, BindingState::Other),
    ];
    let expected = "# HELP ratzek_internet_available Flag of wide internet availability\n\
# TYPE ratzek_internet_available gauge\n\
ratzek_internet_available 1\n\
# HELP ratzek_clients_in_acl Number of clients in ACL\n\
# TYPE ratzek_clients_in_acl gauge\n\
ratzek_clients_in_acl 12\n\
# HELP ratzek_clients_in_shaper Number of clients in shaper\n\
# TYPE ratzek_clients_in_shaper gauge\n\
ratzek_clients_in_shaper 1030\n\
# HELP ratzek_dhcp_leases_free Number of free DHCP leases\n\
# TYPE ratzek_dhcp_leases_free gauge\n\
ratzek_dhcp_leases_free 1\n\
# HELP ratzek_dhcp_leases_active Number of active DHCP leases\n\
# TYPE ratzek_dhcp_leases_active gauge\n\
ratzek_dhcp_leases_active 2\n\
# HELP ratzek_dhcp_leases_abandoned Number of abandoned DHCP leases\n\
# TYPE ratzek_dhcp_leases_abandoned gauge\n\
ratzek_dhcp_leases_abandoned 0\n";
    assert_eq!(prometheus_exporter(true, 12, 1030, &leases), expected);
    assert!(prometheus_exporter(false, 0, 0, &Vec::new())
        .starts_with("# HELP ratzek_internet_available Flag of wide internet availability\n# TYPE ratzek_internet_available gauge\nratzek_internet_available 0\n"));
}

#[test]
fn a_list_is_lowered_text_by_text() {
    assert_eq!(
        ala_archa_backend::http::lowercase_all(&vec!["AA:BB".to_string(), "ЖУК".to_string(), "x1".to_string()]),
        vec!["aa:bb".to_string(), "жук".to_string(), "x1".to_string()]
    );
    assert!(ala_archa_backend::http::lowercase_all(&Vec::new()).is_empty());
}
