use swift_file::network::{
    get_interface_ip, is_network_interface_valid, requested_ip, InterfaceError, IpAddress,
    NetworkInterface,
};
use swift_file::port::{is_port_valid, port_unavailable_notice, PortProbe, PortSearch};
use swift_file::text::decimal_text;

fn machine_interfaces() -> Vec<NetworkInterface> {
    default_net::get_interfaces()
        .into_iter()
        .map(|iface| NetworkInterface {
            name: iface.name.clone(),
            ipv4: iface.ipv4.iter().map(|net| u32::from(net.addr)).collect(),
            ipv6: iface.ipv6.iter().map(|net| u128::from(net.addr)).collect(),
        })
        .collect()
}

fn iface(name: &str, ipv4: Vec<u32>, ipv6: Vec<u128>) -> NetworkInterface {
    NetworkInterface { name: name.to_string(), ipv4, ipv6 }
}

#[test]
fn test_is_port_valid() {
    assert!(is_port_valid("8300").is_ok());
}

#[test]
fn test_is_port_valid_fails() {
    assert!(is_port_valid("blabla").is_err());
}

#[test]
fn test_is_network_interface_valid_fails() {
    assert!(is_network_interface_valid(machine_interfaces(), "blabla").is_err());
}

#[test]
fn port_text_values() {
    assert_eq!(is_port_valid("8300").ok(), Some(8300));
    assert_eq!(is_port_valid("0").ok(), Some(0));
    assert_eq!(is_port_valid("65535").ok(), Some(65535));
    assert_eq!(is_port_valid("+80").ok(), Some(80));
    assert_eq!(is_port_valid("00080").ok(), Some(80));
    assert_eq!(is_port_valid("000000000000065535").ok(), Some(65535));
}

#[test]
fn port_text_refusals() {
    for text in ["", "+", "-1", "65536", "99999999999", " 80", "80 ", "8O", "++80", "\u{ff18}0"] {
        assert!(is_port_valid(text).is_err(), "{text:?} was accepted");
        assert_eq!(text.parse::<u16>().is_err(), true);
    }
}

#[test]
fn port_parse_agrees_with_std() {
    for text in ["1", "+1", "01", "65535", "65536", "1a", "", "+", "-0", "4294967296", "22"] {
        assert_eq!(is_port_valid(text).ok(), text.parse::<u16>().ok(), "{text:?}");
    }
}

#[test]
fn port_error_message() {
    let err = is_port_valid("blabla").unwrap_err();
    assert_eq!(err.message(), "`blabla` isn't a port number");
    assert_eq!(err.input, "blabla");
}

#[test]
fn port_round_trip() {
    for p in [0u16, 1, 9, 10, 1024, 8080, 49151, 65535] {
        let text = decimal_text(p as u64);
        assert_eq!(text, p.to_string());
        assert_eq!(is_port_valid(&text).ok(), Some(p));
    }
    assert_eq!(decimal_text(u64::MAX), u64::MAX.to_string());
}

#[test]
fn port_search_without_request() {
    let mut search = PortSearch::new(None);
    assert_eq!(search.next_probe(), PortProbe::Try { port: 1024, requested: false });
    search.reject();
    assert_eq!(search.next_probe(), PortProbe::Try { port: 1025, requested: false });
}

#[test]
fn port_search_tries_requested_port_first() {
    let mut search = PortSearch::new(Some(8080));
    assert_eq!(search.next_probe(), PortProbe::Try { port: 8080, requested: true });
    search.reject();
    assert_eq!(search.next_probe(), PortProbe::Try { port: 1024, requested: false });
}

#[test]
fn port_search_exhausts_user_range() {
    let mut search = PortSearch::new(Some(80));
    let mut tried = Vec::new();
    loop {
        match search.next_probe() {
            PortProbe::Try { port, .. } => {
                tried.push(port);
                search.reject();
            }
            PortProbe::Exhausted => break,
        }
    }
    assert_eq!(tried.len(), 1 + (49151 - 1024 + 1));
    assert_eq!(tried[0], 80);
    assert_eq!(tried[1], 1024);
    assert_eq!(*tried.last().unwrap(), 49151);
    assert_eq!(search.next_probe(), PortProbe::Exhausted);
}

#[test]
fn port_unavailable_text() {
    assert_eq!(
        port_unavailable_notice(8080),
        "Selected port 8080 is not available. Searching for another available port..."
    );
}

#[test]
fn interface_selection_takes_first_match() {
    let list = vec![
        iface("lo", vec![0x7f00_0001], vec![]),
        iface("eth0", vec![0x0a00_0001], vec![]),
        iface("eth0", vec![0x0a00_0002], vec![]),
    ];
    let chosen = is_network_interface_valid(list, "eth0").ok().unwrap();
    assert_eq!(chosen.ipv4, vec![0x0a00_0001]);
}

#[test]
fn interface_without_address_is_refused() {
    let list = vec![iface("wg0", vec![], vec![]), iface("wg0", vec![1], vec![])];
    match is_network_interface_valid(list, "wg0") {
        Err(err @ InterfaceError::NoAddress { .. }) => {
            assert_eq!(err.message(), "interface wg0 has no IPv4 or IPv6 address to bind to");
        }
        _ => panic!("expected a refusal"),
    }
}

#[test]
fn unknown_interface_is_refused() {
    match is_network_interface_valid(vec![iface("lo", vec![1], vec![])], "blabla") {
        Err(err @ InterfaceError::UnknownName { .. }) => {
            assert_eq!(err.message(), "blabla is not a valid interface name");
        }
        _ => panic!("expected a refusal"),
    }
}

#[test]
fn interface_ip_prefers_ipv4() {
    assert_eq!(get_interface_ip(&iface("a", vec![5, 6], vec![7])), IpAddress::V4(5));
    assert_eq!(get_interface_ip(&iface("a", vec![], vec![7, 8])), IpAddress::V6(7));
}

#[test]
fn requested_ip_order() {
    let eth = Some(iface("eth0", vec![9], vec![]));
    assert_eq!(requested_ip(Some(IpAddress::V4(1)), &eth), Some(IpAddress::V4(1)));
    assert_eq!(requested_ip(None, &eth), Some(IpAddress::V4(9)));
    assert_eq!(requested_ip(None, &None), None);
}
