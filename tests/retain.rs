use nmstate::iface::{include_current_ip_address_if_dhcp_on_to_off, Interface, Interfaces};
use nmstate::ip::{InterfaceIpAddr, IpAddress};
use nmstate::ipv4::InterfaceIpv4;
use nmstate::ipv6::InterfaceIpv6;

fn addr(a: u8, b: u8, c: u8, d: u8, prefix: u8) -> InterfaceIpAddr {
    InterfaceIpAddr {
        ip: IpAddress::V4(u32::from_be_bytes([a, b, c, d])),
        prefix_length: prefix,
    }
}

fn v4(enabled: bool, dhcp: bool, addresses: Option<Vec<InterfaceIpAddr>>) -> InterfaceIpv4 {
    let mut c = InterfaceIpv4::new();
    c.enabled = enabled;
    c.dhcp = Some(dhcp);
    c.addresses = addresses;
    c
}

fn iface(name: &str, ipv4: Option<InterfaceIpv4>) -> Interface {
    Interface { name: name.to_string(), ipv4, ipv6: None }
}

#[test]
fn auto_to_manual_keeps_current_addresses() {
    let current = Interfaces {
        kernel_ifaces: vec![iface("eth0", Some(v4(true, true, Some(vec![addr(10, 0, 0, 5, 24)]))))],
    };
    let mut desired = Interfaces {
        kernel_ifaces: vec![iface("eth0", Some(v4(true, false, None)))],
    };
    include_current_ip_address_if_dhcp_on_to_off(&mut desired, &current);
    let got = desired.kernel_ifaces[0].ipv4.as_ref().unwrap();
    assert_eq!(got.addresses, Some(vec![addr(10, 0, 0, 5, 24)]));
    assert_eq!(got.dhcp, Some(false));
}

#[test]
fn retain_is_noop_when_not_applicable() {
    let current = Interfaces {
        kernel_ifaces: vec![
            iface("eth0", Some(v4(true, true, Some(vec![addr(10, 0, 0, 5, 24)])))),
            iface("eth1", Some(v4(true, true, Some(vec![])))),
            iface("eth2", Some(v4(true, false, Some(vec![addr(10, 0, 2, 5, 24)])))),
        ],
    };
    let mut desired = Interfaces {
        kernel_ifaces: vec![
            iface("eth0", Some(v4(true, false, Some(vec![addr(10, 9, 9, 9, 16)])))),
            iface("eth1", Some(v4(true, false, None))),
            iface("eth2", Some(v4(true, false, None))),
            iface("eth3", Some(v4(true, false, None))),
        ],
    };
    let before = desired.clone();
    include_current_ip_address_if_dhcp_on_to_off(&mut desired, &current);
    assert_eq!(desired, before);
}

#[test]
fn retain_skips_desired_still_auto_or_disabled() {
    let current = Interfaces {
        kernel_ifaces: vec![
            iface("eth0", Some(v4(true, true, Some(vec![addr(10, 0, 0, 5, 24)])))),
            iface("eth1", Some(v4(true, true, Some(vec![addr(10, 0, 1, 5, 24)])))),
        ],
    };
    let mut desired = Interfaces {
        kernel_ifaces: vec![
            iface("eth0", Some(v4(true, true, None))),
            iface("eth1", Some(v4(false, false, None))),
        ],
    };
    let before = desired.clone();
    include_current_ip_address_if_dhcp_on_to_off(&mut desired, &current);
    assert_eq!(desired, before);
}

#[test]
fn retain_ipv6_autoconf_to_manual() {
    let ll = InterfaceIpAddr { ip: IpAddress::V6((0x2001u128 << 112) | 7), prefix_length: 64 };
    let mut cur6 = InterfaceIpv6::new();
    cur6.enabled = true;
    cur6.autoconf = Some(true);
    cur6.addresses = Some(vec![ll]);
    let mut want6 = InterfaceIpv6::new();
    want6.enabled = true;
    want6.autoconf = Some(false);
    want6.dhcp = Some(false);
    let current = Interfaces {
        kernel_ifaces: vec![Interface { name: "eth0".to_string(), ipv4: None, ipv6: Some(cur6) }],
    };
    let mut desired = Interfaces {
        kernel_ifaces: vec![Interface { name: "eth0".to_string(), ipv4: None, ipv6: Some(want6) }],
    };
    include_current_ip_address_if_dhcp_on_to_off(&mut desired, &current);
    assert_eq!(desired.kernel_ifaces[0].ipv6.as_ref().unwrap().addresses, Some(vec![ll]));
}

#[test]
fn interface_names_are_checked_unique() {
    let ok = Interfaces {
        kernel_ifaces: vec![iface("eth0", None), iface("eth1", None)],
    };
    assert!(ok.is_well_formed());
    let dup = Interfaces {
        kernel_ifaces: vec![iface("eth0", None), iface("eth1", None), iface("eth0", None)],
    };
    assert!(!dup.is_well_formed());
    assert!(Interfaces { kernel_ifaces: vec![] }.is_well_formed());
}
