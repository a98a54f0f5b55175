use videopos::network::{
    address, connectivity_probe_address, get_local_ip, is_online, NetInterface, ProbeOutcome, NO_SUITABLE_ADDRESS,
};
use videopos::text::{decimal_text, signed_decimal_text};
use videopos::startup::{
    navigation_script, sidecars_to_start, startup_route, watchdog_step, WatchdogAction, ONVIF_SERVER_PATH,
    RTSP_SERVER_PATH,
};

fn iface(ip: &str, is_loopback: bool, is_ipv4: bool) -> NetInterface {
    NetInterface { ip: ip.to_string(), is_loopback, is_ipv4 }
}

#[test]
fn local_ip_skips_loopback_and_ipv6() {
    let interfaces = vec![
        iface("127.0.0.1", true, true),
        iface("fe80::1", false, false),
        iface("192.168.1.20", false, true),
        iface("10.0.0.5", false, true),
    ];
    assert_eq!(get_local_ip(&interfaces), Ok("192.168.1.20".to_string()));
}

#[test]
fn local_ip_none_suitable() {
    let interfaces = vec![iface("127.0.0.1", true, true), iface("::1", true, false)];
    assert_eq!(get_local_ip(&interfaces), Err(NO_SUITABLE_ADDRESS.to_string()));
    assert_eq!(get_local_ip(&Vec::new()), Err("No suitable IP address found".to_string()));
}

#[test]
fn streaming_address_text() {
    assert_eq!(address("192.168.1.20"), "Currently streaming on IP Address: 192.168.1.20");
}

#[test]
fn probe_address_text() {
    assert_eq!(connectivity_probe_address(), "8.8.8.8:53");
}

#[test]
fn decimal_digits() {
    assert_eq!(decimal_text(0), "0");
    assert_eq!(decimal_text(7), "7");
    assert_eq!(decimal_text(10), "10");
    assert_eq!(decimal_text(8000), "8000");
    assert_eq!(decimal_text(65535), "65535");
    assert_eq!(decimal_text(u64::MAX), "18446744073709551615");
}

#[test]
fn signed_decimal_digits() {
    assert_eq!(signed_decimal_text(0), "0");
    assert_eq!(signed_decimal_text(8000), "8000");
    assert_eq!(signed_decimal_text(-42), "-42");
    assert_eq!(signed_decimal_text(i32::MIN), "-2147483648");
    assert_eq!(signed_decimal_text(i32::MAX), "2147483647");
}

#[test]
fn online_only_when_connected() {
    assert!(is_online(ProbeOutcome::Connected));
    assert!(!is_online(ProbeOutcome::Failed));
    assert!(!is_online(ProbeOutcome::TimedOut));
    assert!(!is_online(ProbeOutcome::AddressInvalid));
}

#[test]
fn start_up_routes() {
    assert_eq!(startup_route(true), "/home");
    assert_eq!(startup_route(false), "/setup");
    assert_eq!(navigation_script("/home"), "window.location.href = '/home'");
    assert_eq!(navigation_script(&startup_route(false)), "window.location.href = '/setup'");
}

#[test]
fn sidecars_only_when_valid() {
    assert_eq!(sidecars_to_start(true), vec![RTSP_SERVER_PATH.to_string(), ONVIF_SERVER_PATH.to_string()]);
    assert_eq!(sidecars_to_start(false), Vec::<String>::new());
}

#[test]
fn watchdog_stops_on_invalid() {
    assert_eq!(watchdog_step(true), WatchdogAction::KeepWatching);
    assert_eq!(watchdog_step(false), WatchdogAction::StopSidecars);
}
