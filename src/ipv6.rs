use vstd::prelude::*;
use crate::fields::{IpField, field_declared, merge_fields, merged_fields};
use crate::ip::{InterfaceIpAddr, drop_link_local, link_local_addresses, only_link_local, is_link_local, lemma_drop_link_local_excludes,
    lemma_sort_addrs_elements, remove_link_local, sort_addrs, sort_addresses};
use crate::ipv4::{copy_opt_addrs, default_true, has_addresses, has_addrs, is_true, opt_addrs_view};

verus! {

/// IPv6 settings of an interface. `prop_list` is the set of fields its
/// producer set explicitly, which a merge consults.
#[derive(Debug, Clone, PartialEq, Eq)]
pub struct InterfaceIpv6 {
    pub enabled: bool,
    pub prop_list: Vec<IpField>,
    pub dhcp: Option<bool>,
    pub autoconf: Option<bool>,
    pub addresses: Option<Vec<InterfaceIpAddr>>,
    pub auto_dns: Option<bool>,
    pub auto_gateway: Option<bool>,
    pub auto_routes: Option<bool>,
    pub auto_table_id: Option<u32>,
}

/// The value of an `InterfaceIpv6`.
pub struct Ipv6Model {
    pub enabled: bool,
    pub prop_list: Seq<IpField>,
    pub dhcp: Option<bool>,
    pub autoconf: Option<bool>,
    pub addresses: Option<Seq<InterfaceIpAddr>>,
    pub auto_dns: Option<bool>,
    pub auto_gateway: Option<bool>,
    pub auto_routes: Option<bool>,
    pub auto_table_id: Option<u32>,
}

impl View for InterfaceIpv6 {
    type V = Ipv6Model;

    open spec fn view(&self) -> Ipv6Model {
        Ipv6Model {
            enabled: self.enabled,
            prop_list: self.prop_list@,
            dhcp: self.dhcp,
            autoconf: self.autoconf,
            addresses: opt_addrs_view(self.addresses),
            auto_dns: self.auto_dns,
            auto_gateway: self.auto_gateway,
            auto_routes: self.auto_routes,
            auto_table_id: self.auto_table_id,
        }
    }
}

/// Automatic mode: enabled with DHCP or autoconf on.
pub open spec fn v6_is_auto(m: Ipv6Model) -> bool {
    m.enabled && (m.dhcp == Some(true) || m.autoconf == Some(true))
}

/// A disabled config holds no DHCP or autoconf flag and no addresses; one
/// outside automatic mode holds no automatic sub-options.
pub open spec fn v6_cleaned(m: Ipv6Model) -> Ipv6Model {
    let keep_auto = v6_is_auto(m);
    Ipv6Model {
        enabled: m.enabled,
        prop_list: m.prop_list,
        dhcp: if m.enabled { m.dhcp } else { None },
        autoconf: if m.enabled { m.autoconf } else { None },
        addresses: if m.enabled { m.addresses } else { None },
        auto_dns: if keep_auto { m.auto_dns } else { None },
        auto_gateway: if keep_auto { m.auto_gateway } else { None },
        auto_routes: if keep_auto { m.auto_routes } else { None },
        auto_table_id: if keep_auto { m.auto_table_id } else { None },
    }
}

/// `base` with each field that `patch` declares taken from `patch`, the
/// declared sets joined, then cleaned.
pub open spec fn v6_updated(base: Ipv6Model, patch: Ipv6Model) -> Ipv6Model {
    let d = patch.prop_list;
    v6_cleaned(
        Ipv6Model {
            enabled: if d.contains(IpField::Enabled) { patch.enabled } else { base.enabled },
            prop_list: merged_fields(base.prop_list, d),
            dhcp: if d.contains(IpField::Dhcp) { patch.dhcp } else { base.dhcp },
            autoconf: if d.contains(IpField::Autoconf) { patch.autoconf } else { base.autoconf },
            addresses: if d.contains(IpField::Addresses) { patch.addresses } else { base.addresses },
            auto_dns: if d.contains(IpField::AutoDns) { patch.auto_dns } else { base.auto_dns },
            auto_gateway: if d.contains(IpField::AutoGateway) { patch.auto_gateway } else { base.auto_gateway },
            auto_routes: if d.contains(IpField::AutoRoutes) { patch.auto_routes } else { base.auto_routes },
            auto_table_id: if d.contains(IpField::AutoTableId) { patch.auto_table_id } else { base.auto_table_id },
        },
    )
}

pub open spec fn opt_drop_link_local(a: Option<Seq<InterfaceIpAddr>>) -> Option<Seq<InterfaceIpAddr>> {
    match a {
        Some(s) => Some(drop_link_local(s)),
        None => None,
    }
}

/// Before sending to the daemon: link-local addresses dropped; in automatic
/// mode, unset automatic sub-options default to true and static addresses are
/// dropped; then cleaned.
pub open spec fn v6_pre_edit(m: Ipv6Model) -> Ipv6Model {
    let f = Ipv6Model { addresses: opt_drop_link_local(m.addresses), ..m };
    if v6_is_auto(f) {
        v6_cleaned(
            Ipv6Model {
                auto_dns: default_true(f.auto_dns),
                auto_routes: default_true(f.auto_routes),
                auto_gateway: default_true(f.auto_gateway),
                addresses: if has_addrs(f.addresses) { None } else { f.addresses },
                ..f
            },
        )
    } else {
        v6_cleaned(f)
    }
}

/// The addresses edit cleanup drops: the link-local ones, and in automatic
/// mode the others too.
pub open spec fn v6_pre_edit_dropped(m: Ipv6Model) -> Seq<InterfaceIpAddr> {
    match m.addresses {
        Some(s) => only_link_local(s) + if v6_is_auto(m) {
            drop_link_local(s)
        } else {
            Seq::empty()
        },
        None => Seq::empty(),
    }
}

/// Before comparing desired and current state: cleaned, addresses dropped in
/// automatic mode and otherwise stripped of link-local ones and sorted, DHCP
/// and autoconf made `Some(false)` unless on.
pub open spec fn v6_pre_verify(m: Ipv6Model) -> Ipv6Model {
    let c = v6_cleaned(m);
    Ipv6Model {
        addresses: if v6_is_auto(c) {
            None
        } else {
            match c.addresses {
                Some(s) => Some(sort_addrs(drop_link_local(s))),
                None => None,
            }
        },
        dhcp: if c.dhcp == Some(true) { Some(true) } else { Some(false) },
        autoconf: if c.autoconf == Some(true) { Some(true) } else { Some(false) },
        ..c
    }
}

impl InterfaceIpv6 {
    /// A disabled config with no field declared.
    pub fn new() -> (r: Self)
        ensures
            r@ == (Ipv6Model {
                enabled: false,
                prop_list: Seq::empty(),
                dhcp: None,
                autoconf: None,
                addresses: None,
                auto_dns: None,
                auto_gateway: None,
                auto_routes: None,
                auto_table_id: None,
            }),
    {
        InterfaceIpv6 {
            enabled: false,
            prop_list: Vec::new(),
            dhcp: None,
            autoconf: None,
            addresses: None,
            auto_dns: None,
            auto_gateway: None,
            auto_routes: None,
            auto_table_id: None,
        }
    }

    pub fn is_auto(&self) -> (r: bool)
        ensures
            r == v6_is_auto(self@),
    {
        self.enabled && (is_true(self.dhcp) || is_true(self.autoconf))
    }

    /// Clears DHCP, autoconf and addresses when disabled, and the automatic
    /// sub-options outside automatic mode.
    pub fn cleanup(&mut self)
        ensures
            final(self)@ == v6_cleaned(old(self)@),
    {
        let keep_auto = self.is_auto();
        if !self.enabled {
            self.dhcp = None;
            self.autoconf = None;
            self.addresses = None;
        }
        if !keep_auto {
            self.auto_dns = None;
            self.auto_gateway = None;
            self.auto_routes = None;
            self.auto_table_id = None;
        }
    }

    /// Merges `other` into `self`: only the fields `other` declares move.
    pub fn update(&mut self, other: &Self)
        ensures
            final(self)@ == v6_updated(old(self)@, other@),
    {
        if field_declared(&other.prop_list, IpField::Enabled) {
            self.enabled = other.enabled;
        }
        if field_declared(&other.prop_list, IpField::Dhcp) {
            self.dhcp = other.dhcp;
        }
        if field_declared(&other.prop_list, IpField::Autoconf) {
            self.autoconf = other.autoconf;
        }
        if field_declared(&other.prop_list, IpField::Addresses) {
            self.addresses = copy_opt_addrs(&other.addresses);
        }
        if field_declared(&other.prop_list, IpField::AutoDns) {
            self.auto_dns = other.auto_dns;
        }
        if field_declared(&other.prop_list, IpField::AutoGateway) {
            self.auto_gateway = other.auto_gateway;
        }
        if field_declared(&other.prop_list, IpField::AutoRoutes) {
            self.auto_routes = other.auto_routes;
        }
        if field_declared(&other.prop_list, IpField::AutoTableId) {
            self.auto_table_id = other.auto_table_id;
        }
        merge_fields(&mut self.prop_list, &other.prop_list);
        self.cleanup();
    }

    /// Prepares a config for comparing desired with current state.
    pub fn pre_verify_cleanup(&mut self)
        ensures
            final(self)@ == v6_pre_verify(old(self)@),
    {
        self.cleanup();
        if self.is_auto() {
            self.addresses = None;
        }
        if let Some(addrs) = &self.addresses {
            let kept = remove_link_local(addrs);
            let sorted = sort_addresses(&kept);
            self.addresses = Some(sorted);
        }
        if !is_true(self.dhcp) {
            self.dhcp = Some(false);
        }
        if !is_true(self.autoconf) {
            self.autoconf = Some(false);
        }
    }

    /// The addresses `pre_edit_cleanup` drops: the link-local ones, and in
    /// automatic mode the static ones as well. The caller warns of each.
    pub fn pre_edit_dropped_addresses(&self) -> (r: Vec<InterfaceIpAddr>)
        ensures
            r@ == v6_pre_edit_dropped(self@),
    {
        match &self.addresses {
            Some(v) => {
                let mut dropped = link_local_addresses(v);
                if self.is_auto() {
                    let mut kept = remove_link_local(v);
                    dropped.append(&mut kept);
                }
                dropped
            },
            None => Vec::new(),
        }
    }

    /// Prepares a desired config for sending to the daemon.
    pub fn pre_edit_cleanup(&mut self)
        ensures
            final(self)@ == v6_pre_edit(old(self)@),
    {
        if let Some(addrs) = &self.addresses {
            let kept = remove_link_local(addrs);
            self.addresses = Some(kept);
        }
        if self.is_auto() {
            if self.auto_dns.is_none() {
                self.auto_dns = Some(true);
            }
            if self.auto_routes.is_none() {
                self.auto_routes = Some(true);
            }
            if self.auto_gateway.is_none() {
                self.auto_gateway = Some(true);
            }
            if has_addresses(&self.addresses) {
                self.addresses = None;
            }
        }
        self.cleanup();
    }
}

/// Cleaning a config twice gives what cleaning it once gives.
pub proof fn lemma_v6_cleanup_idempotent(m: Ipv6Model)
    ensures
        v6_cleaned(v6_cleaned(m)) == v6_cleaned(m),
{
}

/// After verification cleanup a disabled config has DHCP and autoconf off and
/// no addresses.
pub proof fn lemma_v6_pre_verify_disabled(m: Ipv6Model)
    ensures
        !v6_pre_verify(m).enabled ==> v6_pre_verify(m).dhcp == Some(false)
            && v6_pre_verify(m).autoconf == Some(false) && v6_pre_verify(m).addresses is None,
{
}

/// A merge keeps the enabled flag of the base when the patch does not declare
/// it, and takes the patch's DHCP flag when it declares it and the result is
/// enabled.
pub proof fn lemma_v6_update_field_scoped(base: Ipv6Model, patch: Ipv6Model)
    ensures
        !patch.prop_list.contains(IpField::Enabled) ==> v6_updated(base, patch).enabled
            == base.enabled,
        patch.prop_list.contains(IpField::Dhcp) && v6_updated(base, patch).enabled ==> v6_updated(
            base,
            patch,
        ).dhcp == patch.dhcp,
{
}

/// In automatic mode, edit cleanup sets an unset DNS, gateway and routes
/// option to true.
pub proof fn lemma_v6_pre_edit_fills_auto(m: Ipv6Model)
    requires
        v6_is_auto(m),
    ensures
        m.auto_dns is None ==> v6_pre_edit(m).auto_dns == Some(true),
        m.auto_gateway is None ==> v6_pre_edit(m).auto_gateway == Some(true),
        m.auto_routes is None ==> v6_pre_edit(m).auto_routes == Some(true),
{
}

/// Neither edit nor verification cleanup leaves a link-local address in an
/// IPv6 config.
pub proof fn lemma_v6_link_local_excluded(m: Ipv6Model)
    ensures
        v6_pre_verify(m).addresses matches Some(s) ==> forall|i: int|
            0 <= i < s.len() ==> !is_link_local(#[trigger] s[i]),
        v6_pre_edit(m).addresses matches Some(s) ==> forall|i: int|
            0 <= i < s.len() ==> !is_link_local(#[trigger] s[i]),
{
    if let Some(a) = m.addresses {
        lemma_drop_link_local_excludes(a);
        lemma_sort_addrs_elements(drop_link_local(a));
        let d = drop_link_local(a);
        assert forall|i: int| 0 <= i < sort_addrs(d).len() implies !is_link_local(
            #[trigger] sort_addrs(d)[i],
        ) by {
            let k = choose|k: int| 0 <= k < d.len() && d[k] == sort_addrs(d)[i];
        }
    }
}

} // verus!
