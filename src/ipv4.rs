use vstd::prelude::*;
use crate::fields::{IpField, field_declared, merge_fields, merged_fields};
use crate::ip::{InterfaceIpAddr, copy_addrs, sort_addrs, sort_addresses};

verus! {

/// IPv4 settings of an interface. `prop_list` is the set of fields its
/// producer set explicitly, which a merge consults.
#[derive(Debug, Clone, PartialEq, Eq)]
pub struct InterfaceIpv4 {
    pub enabled: bool,
    pub prop_list: Vec<IpField>,
    pub dhcp: Option<bool>,
    pub addresses: Option<Vec<InterfaceIpAddr>>,
    pub auto_dns: Option<bool>,
    pub auto_gateway: Option<bool>,
    pub auto_routes: Option<bool>,
    pub auto_table_id: Option<u32>,
}

/// The value of an `InterfaceIpv4`.
pub struct Ipv4Model {
    pub enabled: bool,
    pub prop_list: Seq<IpField>,
    pub dhcp: Option<bool>,
    pub addresses: Option<Seq<InterfaceIpAddr>>,
    pub auto_dns: Option<bool>,
    pub auto_gateway: Option<bool>,
    pub auto_routes: Option<bool>,
    pub auto_table_id: Option<u32>,
}

pub open spec fn opt_addrs_view(a: Option<Vec<InterfaceIpAddr>>) -> Option<Seq<InterfaceIpAddr>> {
    match a {
        Some(v) => Some(v@),
        None => None,
    }
}

impl View for InterfaceIpv4 {
    type V = Ipv4Model;

    open spec fn view(&self) -> Ipv4Model {
        Ipv4Model {
            enabled: self.enabled,
            prop_list: self.prop_list@,
            dhcp: self.dhcp,
            addresses: opt_addrs_view(self.addresses),
            auto_dns: self.auto_dns,
            auto_gateway: self.auto_gateway,
            auto_routes: self.auto_routes,
            auto_table_id: self.auto_table_id,
        }
    }
}

/// Automatic mode: enabled with DHCP on.
pub open spec fn v4_is_auto(m: Ipv4Model) -> bool {
    m.enabled && m.dhcp == Some(true)
}

/// A disabled config holds no DHCP flag and no addresses; one outside
/// automatic mode holds no automatic sub-options.
pub open spec fn v4_cleaned(m: Ipv4Model) -> Ipv4Model {
    let dhcp = if m.enabled { m.dhcp } else { None };
    let keep_auto = dhcp == Some(true);
    Ipv4Model {
        enabled: m.enabled,
        prop_list: m.prop_list,
        dhcp,
        addresses: if m.enabled { m.addresses } else { None },
        auto_dns: if keep_auto { m.auto_dns } else { None },
        auto_gateway: if keep_auto { m.auto_gateway } else { None },
        auto_routes: if keep_auto { m.auto_routes } else { None },
        auto_table_id: if keep_auto { m.auto_table_id } else { None },
    }
}

/// `base` with each field that `patch` declares taken from `patch`, the
/// declared sets joined, then cleaned.
pub open spec fn v4_updated(base: Ipv4Model, patch: Ipv4Model) -> Ipv4Model {
    let d = patch.prop_list;
    v4_cleaned(
        Ipv4Model {
            enabled: if d.contains(IpField::Enabled) { patch.enabled } else { base.enabled },
            prop_list: merged_fields(base.prop_list, d),
            dhcp: if d.contains(IpField::Dhcp) { patch.dhcp } else { base.dhcp },
            addresses: if d.contains(IpField::Addresses) { patch.addresses } else { base.addresses },
            auto_dns: if d.contains(IpField::AutoDns) { patch.auto_dns } else { base.auto_dns },
            auto_gateway: if d.contains(IpField::AutoGateway) { patch.auto_gateway } else { base.auto_gateway },
            auto_routes: if d.contains(IpField::AutoRoutes) { patch.auto_routes } else { base.auto_routes },
            auto_table_id: if d.contains(IpField::AutoTableId) { patch.auto_table_id } else { base.auto_table_id },
        },
    )
}

/// Whether an optional address list holds at least one address.
pub open spec fn has_addrs(a: Option<Seq<InterfaceIpAddr>>) -> bool {
    match a {
        Some(s) => s.len() > 0,
        None => false,
    }
}

pub open spec fn default_true(o: Option<bool>) -> Option<bool> {
    match o {
        Some(b) => Some(b),
        None => Some(true),
    }
}

/// Before sending to the daemon: in automatic mode, unset automatic
/// sub-options default to true and static addresses are dropped; then cleaned.
pub open spec fn v4_pre_edit(m: Ipv4Model) -> Ipv4Model {
    if v4_is_auto(m) {
        v4_cleaned(
            Ipv4Model {
                auto_dns: default_true(m.auto_dns),
                auto_routes: default_true(m.auto_routes),
                auto_gateway: default_true(m.auto_gateway),
                addresses: if has_addrs(m.addresses) { None } else { m.addresses },
                ..m
            },
        )
    } else {
        v4_cleaned(m)
    }
}

/// The addresses edit cleanup drops: the static ones of an automatic config.
pub open spec fn v4_pre_edit_dropped(m: Ipv4Model) -> Seq<InterfaceIpAddr> {
    match m.addresses {
        Some(s) => if v4_is_auto(m) { s } else { Seq::empty() },
        None => Seq::empty(),
    }
}

/// Before comparing desired and current state: cleaned, addresses dropped in
/// automatic mode and sorted otherwise, DHCP made `Some(false)` unless on.
pub open spec fn v4_pre_verify(m: Ipv4Model) -> Ipv4Model {
    let c = v4_cleaned(m);
    Ipv4Model {
        addresses: if c.dhcp == Some(true) {
            None
        } else {
            match c.addresses {
                Some(s) => Some(sort_addrs(s)),
                None => None,
            }
        },
        dhcp: if c.dhcp == Some(true) { Some(true) } else { Some(false) },
        ..c
    }
}

/// Whether an optional flag is `Some(true)`.
pub fn is_true(o: Option<bool>) -> (r: bool)
    ensures
        r == (o == Some(true)),
{
    match o {
        Some(b) => b,
        None => false,
    }
}

/// A copy of an optional address list.
pub fn copy_opt_addrs(a: &Option<Vec<InterfaceIpAddr>>) -> (r: Option<Vec<InterfaceIpAddr>>)
    ensures
        opt_addrs_view(r) == opt_addrs_view(*a),
{
    match a {
        Some(v) => Some(copy_addrs(v)),
        None => None,
    }
}

/// Whether an optional address list holds at least one address.
pub fn has_addresses(a: &Option<Vec<InterfaceIpAddr>>) -> (r: bool)
    ensures
        r == has_addrs(opt_addrs_view(*a)),
{
    match a {
        Some(v) => v.len() > 0,
        None => false,
    }
}

impl InterfaceIpv4 {
    /// A disabled config with no field declared.
    pub fn new() -> (r: Self)
        ensures
            r@ == (Ipv4Model {
                enabled: false,
                prop_list: Seq::empty(),
                dhcp: None,
                addresses: None,
                auto_dns: None,
                auto_gateway: None,
                auto_routes: None,
                auto_table_id: None,
            }),
    {
        InterfaceIpv4 {
            enabled: false,
            prop_list: Vec::new(),
            dhcp: None,
            addresses: None,
            auto_dns: None,
            auto_gateway: None,
            auto_routes: None,
            auto_table_id: None,
        }
    }

    pub fn is_auto(&self) -> (r: bool)
        ensures
            r == v4_is_auto(self@),
    {
        self.enabled && is_true(self.dhcp)
    }

    /// Merges `other` into `self`: only the fields `other` declares move.
    pub fn update(&mut self, other: &Self)
        ensures
            final(self)@ == v4_updated(old(self)@, other@),
    {
        if field_declared(&other.prop_list, IpField::Enabled) {
            self.enabled = other.enabled;
        }
        if field_declared(&other.prop_list, IpField::Dhcp) {
            self.dhcp = other.dhcp;
        }
        if field_declared(&other.prop_list, IpField::Addresses) {
            self.addresses = copy_opt_addrs(&other.addresses);
        }
        if field_declared(&other.prop_list, IpField::AutoDns) {
            self.auto_dns = other.auto_dns;
        }
        if field_declared(&other.prop_list, IpField::AutoGateway) {
            self.auto_gateway = other.auto_gateway;
        }
        if field_declared(&other.prop_list, IpField::AutoRoutes) {
            self.auto_routes = other.auto_routes;
        }
        if field_declared(&other.prop_list, IpField::AutoTableId) {
            self.auto_table_id = other.auto_table_id;
        }
        merge_fields(&mut self.prop_list, &other.prop_list);
        self.cleanup();
    }

    /// Clears DHCP and addresses when disabled, and the automatic
    /// sub-options outside automatic mode.
    pub fn cleanup(&mut self)
        ensures
            final(self)@ == v4_cleaned(old(self)@),
    {
        if !self.enabled {
            self.dhcp = None;
            self.addresses = None;
        }
        if !is_true(self.dhcp) {
            self.auto_dns = None;
            self.auto_gateway = None;
            self.auto_routes = None;
            self.auto_table_id = None;
        }
    }

    /// The static addresses `pre_edit_cleanup` drops: all of them in
    /// automatic mode, none otherwise. The caller warns of each.
    pub fn pre_edit_dropped_addresses(&self) -> (r: Vec<InterfaceIpAddr>)
        ensures
            r@ == v4_pre_edit_dropped(self@),
    {
        if self.is_auto() && has_addresses(&self.addresses) {
            match &self.addresses {
                Some(v) => copy_addrs(v),
                None => Vec::new(),
            }
        } else {
            Vec::new()
        }
    }

    /// Prepares a desired config for sending to the daemon.
    pub fn pre_edit_cleanup(&mut self)
        ensures
            final(self)@ == v4_pre_edit(old(self)@),
    {
        if self.is_auto() {
            if self.auto_dns.is_none() {
                self.auto_dns = Some(true);
            }
            if self.auto_routes.is_none() {
                self.auto_routes = Some(true);
            }
            if self.auto_gateway.is_none() {
                self.auto_gateway = Some(true);
            }
            if has_addresses(&self.addresses) {
                self.addresses = None;
            }
        }
        self.cleanup();
    }

    /// Prepares a config for comparing desired with current state.
    pub fn pre_verify_cleanup(&mut self)
        ensures
            final(self)@ == v4_pre_verify(old(self)@),
    {
        self.cleanup();
        if is_true(self.dhcp) {
            self.addresses = None;
        }
        if let Some(addrs) = &self.addresses {
            let sorted = sort_addresses(addrs);
            self.addresses = Some(sorted);
        }
        if !is_true(self.dhcp) {
            self.dhcp = Some(false);
        }
    }
}

/// Cleaning a config twice gives what cleaning it once gives.
pub proof fn lemma_v4_cleanup_idempotent(m: Ipv4Model)
    ensures
        v4_cleaned(v4_cleaned(m)) == v4_cleaned(m),
{
}

/// After verification cleanup a disabled config has DHCP off and no addresses.
pub proof fn lemma_v4_pre_verify_disabled(m: Ipv4Model)
    ensures
        !v4_pre_verify(m).enabled ==> v4_pre_verify(m).dhcp == Some(false)
            && v4_pre_verify(m).addresses is None,
{
}

/// A merge keeps the enabled flag of the base when the patch does not declare
/// it, and takes the patch's DHCP flag when it declares it and the result is
/// enabled.
pub proof fn lemma_v4_update_field_scoped(base: Ipv4Model, patch: Ipv4Model)
    ensures
        !patch.prop_list.contains(IpField::Enabled) ==> v4_updated(base, patch).enabled
            == base.enabled,
        patch.prop_list.contains(IpField::Dhcp) && v4_updated(base, patch).enabled ==> v4_updated(
            base,
            patch,
        ).dhcp == patch.dhcp,
{
}

/// In automatic mode, edit cleanup sets an unset DNS, gateway and routes
/// option to true.
pub proof fn lemma_v4_pre_edit_fills_auto(m: Ipv4Model)
    requires
        v4_is_auto(m),
    ensures
        m.auto_dns is None ==> v4_pre_edit(m).auto_dns == Some(true),
        m.auto_gateway is None ==> v4_pre_edit(m).auto_gateway == Some(true),
        m.auto_routes is None ==> v4_pre_edit(m).auto_routes == Some(true),
{
}

} // verus!
