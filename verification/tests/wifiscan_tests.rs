//! Tests of the scan-output parsing.

use automattermostatus::wifiscan::{extract_netsh_ssid, has_active_ethernet, WiFi};

#[test]
fn windows_parse_extract_expected_ssid() {
    let res = r#"
Interface name : Wireless Network Connection
There are 22 networks currently visible.

SSID 1 : SKYXXXXX
    Network type            : Infrastructure
    Authentication          : WPA2-Personal
    Encryption              : CCMP

SSID 2 : SKYXXXXX
    Network type            : Infrastructure
    Authentication          : WPA2-Personal
    Encryption              : CCMP

SSID 3 : XXXXX
    Network type            : Infrastructure
    Authentication          : WPA2-Personal
    Encryption              : CCMP

SSID 4 : BTOpenzoneXXX
    Network type            : Infrastructure
    Authentication          : Open
    Encryption              : None
"#;

    assert_eq!(
        extract_netsh_ssid(res),
        ["SKYXXXXX", "SKYXXXXX", "XXXXX", "BTOpenzoneXXX"]
    );
}

#[test]
fn detect_ethernet_when_present() {
    let output = "\
lo0: flags=8049<UP,LOOPBACK,RUNNING,MULTICAST> mtu 16384
\tinet 127.0.0.1 netmask 0xff000000
en0: flags=8863<UP,BROADCAST,SMART,RUNNING,SIMPLEX,MULTICAST> mtu 1500
\tinet 192.168.1.10 netmask 0xffffff00 broadcast 192.168.1.255
en1: flags=8863<UP,BROADCAST,SMART,RUNNING,SIMPLEX,MULTICAST> mtu 1500
\tinet 10.0.0.5 netmask 0xffffff00 broadcast 10.0.0.255";
    // en0 is wifi, en1 is ethernet
    assert!(has_active_ethernet(output, "en0"));
}

#[test]
fn no_ethernet_when_only_wifi_and_loopback() {
    let output = "\
lo0: flags=8049<UP,LOOPBACK,RUNNING,MULTICAST> mtu 16384
\tinet 127.0.0.1 netmask 0xff000000
en0: flags=8863<UP,BROADCAST,SMART,RUNNING,SIMPLEX,MULTICAST> mtu 1500
\tinet 192.168.1.10 netmask 0xffffff00 broadcast 192.168.1.255";
    assert!(!has_active_ethernet(output, "en0"));
}

#[test]
fn no_ethernet_when_interface_is_down() {
    let output = "\
lo0: flags=8049<UP,LOOPBACK,RUNNING,MULTICAST> mtu 16384
\tinet 127.0.0.1 netmask 0xff000000
en0: flags=8863<UP,BROADCAST,SMART,RUNNING,SIMPLEX,MULTICAST> mtu 1500
\tinet 192.168.1.10 netmask 0xffffff00 broadcast 192.168.1.255
en1: flags=8822<BROADCAST,SMART,SIMPLEX,MULTICAST> mtu 1500
\tinet 10.0.0.5 netmask 0xffffff00 broadcast 10.0.0.255";
    // en1 does not have the UP flag
    assert!(!has_active_ethernet(output, "en0"));
}

#[test]
fn wifi_handle_keeps_interface_name() {
    let wifi = WiFi::new("wlan0");
    assert_eq!(wifi.interface, "wlan0");
}
