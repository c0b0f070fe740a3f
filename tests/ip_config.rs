use nmstate::fields::IpField;
use nmstate::error::ErrorKind;
use nmstate::ip::{
    addr_less, parse_u8, is_ipv6_addr, is_ipv6_unicast_link_local, remove_link_local, sort_addresses,
    InterfaceIpAddr, IpAddress,
};
use nmstate::ipv4::InterfaceIpv4;
use nmstate::ipv6::InterfaceIpv6;

fn v4(a: u8, b: u8, c: u8, d: u8, prefix: u8) -> InterfaceIpAddr {
    InterfaceIpAddr {
        ip: IpAddress::V4(u32::from_be_bytes([a, b, c, d])),
        prefix_length: prefix,
    }
}

fn v6(segments: [u16; 8], prefix: u8) -> InterfaceIpAddr {
    let mut v: u128 = 0;
    for s in segments {
        v = (v << 16) | s as u128;
    }
    InterfaceIpAddr { ip: IpAddress::V6(v), prefix_length: prefix }
}

fn link_local() -> InterfaceIpAddr {
    v6([0xfe80, 0, 0, 0, 0, 0, 0, 1], 64)
}

fn global_v6() -> InterfaceIpAddr {
    v6([0x2001, 0xdb8, 0, 0, 0, 0, 0, 1], 64)
}

#[test]
fn cleanup_is_idempotent_v4() {
    let mut c = InterfaceIpv4::new();
    c.enabled = false;
    c.dhcp = Some(true);
    c.auto_dns = Some(false);
    c.addresses = Some(vec![v4(10, 0, 0, 1, 24)]);
    c.cleanup();
    let once = c.clone();
    c.cleanup();
    assert_eq!(c, once);
    assert_eq!(once.dhcp, None);
    assert_eq!(once.addresses, None);
    assert_eq!(once.auto_dns, None);
}

#[test]
fn cleanup_is_idempotent_v6() {
    let mut c = InterfaceIpv6::new();
    c.enabled = true;
    c.dhcp = Some(false);
    c.autoconf = Some(false);
    c.auto_routes = Some(true);
    c.auto_table_id = Some(100);
    c.cleanup();
    let once = c.clone();
    c.cleanup();
    assert_eq!(c, once);
    assert_eq!(once.auto_routes, None);
    assert_eq!(once.auto_table_id, None);
    assert_eq!(once.dhcp, Some(false));
}

#[test]
fn pre_verify_disabled_v4() {
    let mut c = InterfaceIpv4::new();
    c.addresses = Some(vec![v4(10, 0, 0, 1, 24)]);
    c.pre_verify_cleanup();
    assert!(!c.enabled);
    assert_eq!(c.dhcp, Some(false));
    assert_eq!(c.addresses, None);
}

#[test]
fn pre_verify_disabled_v6() {
    let mut c = InterfaceIpv6::new();
    c.dhcp = Some(true);
    c.addresses = Some(vec![global_v6()]);
    c.pre_verify_cleanup();
    assert_eq!(c.dhcp, Some(false));
    assert_eq!(c.autoconf, Some(false));
    assert_eq!(c.addresses, None);
}

#[test]
fn merge_moves_only_declared_fields() {
    let mut base = InterfaceIpv4::new();
    base.enabled = true;
    base.dhcp = Some(true);
    base.prop_list = vec![IpField::Enabled];
    let mut patch = InterfaceIpv4::new();
    patch.enabled = false;
    patch.dhcp = Some(false);
    patch.prop_list = vec![IpField::Dhcp];
    base.update(&patch);
    assert!(base.enabled);
    assert_eq!(base.dhcp, Some(false));
    assert_eq!(base.prop_list, vec![IpField::Enabled, IpField::Dhcp]);
}

#[test]
fn merge_moves_only_declared_fields_v6() {
    let mut base = InterfaceIpv6::new();
    base.enabled = true;
    base.autoconf = Some(true);
    base.prop_list = vec![IpField::Enabled, IpField::Autoconf];
    let mut patch = InterfaceIpv6::new();
    patch.dhcp = Some(true);
    patch.autoconf = Some(false);
    patch.prop_list = vec![IpField::Dhcp, IpField::Autoconf];
    base.update(&patch);
    assert!(base.enabled);
    assert_eq!(base.dhcp, Some(true));
    assert_eq!(base.autoconf, Some(false));
    assert_eq!(
        base.prop_list,
        vec![IpField::Enabled, IpField::Autoconf, IpField::Dhcp]
    );
}

#[test]
fn merge_of_disabling_patch_clears_dhcp() {
    let mut base = InterfaceIpv4::new();
    base.enabled = true;
    base.dhcp = Some(true);
    base.auto_dns = Some(true);
    let mut patch = InterfaceIpv4::new();
    patch.prop_list = vec![IpField::Enabled];
    base.update(&patch);
    assert!(!base.enabled);
    assert_eq!(base.dhcp, None);
    assert_eq!(base.auto_dns, None);
}

#[test]
fn address_order() {
    let a = v4(10, 0, 0, 1, 24);
    let b = v4(10, 0, 0, 1, 32);
    let c = v4(10, 0, 0, 2, 8);
    let d = global_v6();
    assert!(addr_less(&a, &b));
    assert!(!addr_less(&b, &a));
    assert!(addr_less(&b, &c));
    assert!(addr_less(&c, &d));
    assert!(!addr_less(&d, &c));
    assert!(!addr_less(&a, &a));
}

#[test]
fn sort_twice_is_sort_once() {
    let list = vec![
        global_v6(),
        v4(192, 168, 1, 1, 24),
        v4(10, 0, 0, 1, 32),
        v4(10, 0, 0, 1, 24),
        link_local(),
    ];
    let once = sort_addresses(&list);
    assert_eq!(
        once,
        vec![
            v4(10, 0, 0, 1, 24),
            v4(10, 0, 0, 1, 32),
            v4(192, 168, 1, 1, 24),
            global_v6(),
            link_local(),
        ]
    );
    assert_eq!(sort_addresses(&once), once);
    assert_eq!(sort_addresses(&vec![]), vec![]);
}

#[test]
fn link_local_detection() {
    let ll = link_local();
    assert!(is_ipv6_unicast_link_local(&ll.ip, 64));
    assert!(is_ipv6_unicast_link_local(&v6([0xfebf, 0, 0, 0, 0, 0, 0, 1], 10).ip, 10));
    assert!(!is_ipv6_unicast_link_local(&ll.ip, 9));
    assert!(!is_ipv6_unicast_link_local(&v6([0xfec0, 0, 0, 0, 0, 0, 0, 1], 64).ip, 64));
    assert!(!is_ipv6_unicast_link_local(&global_v6().ip, 64));
    assert!(!is_ipv6_unicast_link_local(&v4(254, 128, 0, 1, 24).ip, 24));
    assert!(is_ipv6_addr(&ll.ip));
    assert!(!is_ipv6_addr(&v4(10, 0, 0, 1, 8).ip));
    assert_eq!(remove_link_local(&vec![ll, global_v6(), ll]), vec![global_v6()]);
}

#[test]
fn pre_verify_drops_link_local() {
    let mut c = InterfaceIpv6::new();
    c.enabled = true;
    c.addresses = Some(vec![link_local(), global_v6()]);
    c.pre_verify_cleanup();
    assert_eq!(c.addresses, Some(vec![global_v6()]));
    assert_eq!(c.dhcp, Some(false));
    assert_eq!(c.autoconf, Some(false));
}

#[test]
fn pre_verify_sorts_and_ignores_auto_addresses() {
    let mut c = InterfaceIpv4::new();
    c.enabled = true;
    c.addresses = Some(vec![v4(10, 0, 0, 9, 24), v4(10, 0, 0, 1, 24)]);
    c.pre_verify_cleanup();
    assert_eq!(c.addresses, Some(vec![v4(10, 0, 0, 1, 24), v4(10, 0, 0, 9, 24)]));
    assert_eq!(c.dhcp, Some(false));

    let mut a = InterfaceIpv6::new();
    a.enabled = true;
    a.autoconf = Some(true);
    a.addresses = Some(vec![global_v6()]);
    a.pre_verify_cleanup();
    assert_eq!(a.addresses, None);
    assert_eq!(a.dhcp, Some(false));
    assert_eq!(a.autoconf, Some(true));
}

#[test]
fn pre_edit_fills_auto_defaults_v6() {
    let mut c = InterfaceIpv6::new();
    c.enabled = true;
    c.dhcp = Some(true);
    c.auto_dns = None;
    c.auto_routes = Some(false);
    c.pre_edit_cleanup();
    assert_eq!(c.auto_dns, Some(true));
    assert_eq!(c.auto_gateway, Some(true));
    assert_eq!(c.auto_routes, Some(false));
}

#[test]
fn pre_edit_drops_static_addresses_in_auto_mode() {
    let mut c = InterfaceIpv4::new();
    c.enabled = true;
    c.dhcp = Some(true);
    c.addresses = Some(vec![v4(10, 0, 0, 1, 24)]);
    c.pre_edit_cleanup();
    assert_eq!(c.addresses, None);
    assert_eq!(c.auto_dns, Some(true));
    assert_eq!(c.auto_gateway, Some(true));
    assert_eq!(c.auto_routes, Some(true));

    let mut m = InterfaceIpv4::new();
    m.enabled = true;
    m.dhcp = Some(false);
    m.addresses = Some(vec![v4(10, 0, 0, 1, 24)]);
    m.auto_dns = Some(true);
    m.pre_edit_cleanup();
    assert_eq!(m.addresses, Some(vec![v4(10, 0, 0, 1, 24)]));
    assert_eq!(m.auto_dns, None);
}

#[test]
fn pre_edit_drops_link_local_v6() {
    let mut c = InterfaceIpv6::new();
    c.enabled = true;
    c.addresses = Some(vec![link_local(), global_v6()]);
    c.pre_edit_cleanup();
    assert_eq!(c.addresses, Some(vec![global_v6()]));
    assert_eq!(c.dhcp, None);
}

#[test]
fn default_address_and_prefix() {
    let d = InterfaceIpAddr::default();
    assert_eq!(d.ip, IpAddress::V6(1));
    assert_eq!(d.prefix_length, 128);
    assert_eq!(InterfaceIpAddr::with_default_prefix(IpAddress::V4(1)).prefix_length, 32);
    assert_eq!(InterfaceIpAddr::with_default_prefix(IpAddress::V6(1)).prefix_length, 128);
}

#[test]
fn auto_mode() {
    let mut c = InterfaceIpv6::new();
    assert!(!c.is_auto());
    c.enabled = true;
    c.autoconf = Some(true);
    assert!(c.is_auto());
    let mut d = InterfaceIpv4::new();
    d.dhcp = Some(true);
    assert!(!d.is_auto());
    d.enabled = true;
    assert!(d.is_auto());
}

#[test]
fn pre_edit_reports_dropped_addresses() {
    let mut c = InterfaceIpv4::new();
    c.enabled = true;
    c.dhcp = Some(true);
    c.addresses = Some(vec![v4(10, 0, 0, 1, 24)]);
    assert_eq!(c.pre_edit_dropped_addresses(), vec![v4(10, 0, 0, 1, 24)]);
    c.dhcp = Some(false);
    assert_eq!(c.pre_edit_dropped_addresses(), vec![]);

    let mut d = InterfaceIpv6::new();
    d.enabled = true;
    d.addresses = Some(vec![global_v6(), link_local()]);
    assert_eq!(d.pre_edit_dropped_addresses(), vec![link_local()]);
    d.autoconf = Some(true);
    assert_eq!(d.pre_edit_dropped_addresses(), vec![link_local(), global_v6()]);
    d.addresses = None;
    assert_eq!(d.pre_edit_dropped_addresses(), vec![]);
}

#[test]
fn prefix_text_parsing() {
    assert_eq!(parse_u8("24"), Some(24));
    assert_eq!(parse_u8("+8"), Some(8));
    assert_eq!(parse_u8("007"), Some(7));
    assert_eq!(parse_u8("255"), Some(255));
    assert_eq!(parse_u8("256"), None);
    assert_eq!(parse_u8("99999999999"), None);
    assert_eq!(parse_u8("+"), None);
    assert_eq!(parse_u8(""), None);
    assert_eq!(parse_u8("-1"), None);
    assert_eq!(parse_u8("2a"), None);
    let ip = IpAddress::V4(0x0a000001);
    assert_eq!(InterfaceIpAddr::from_parts(ip, "").unwrap().prefix_length, 32);
    assert_eq!(InterfaceIpAddr::from_parts(IpAddress::V6(1), "").unwrap().prefix_length, 128);
    assert_eq!(InterfaceIpAddr::from_parts(ip, "16").unwrap(), v4(10, 0, 0, 1, 16));
    assert_eq!(
        InterfaceIpAddr::from_parts(ip, "abc").unwrap_err().kind,
        ErrorKind::InvalidArgument
    );
}
