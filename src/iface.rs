use vstd::prelude::*;
use crate::ipv4::{InterfaceIpv4, Ipv4Model, copy_opt_addrs, has_addresses, has_addrs, v4_is_auto};
use crate::ipv6::{InterfaceIpv6, Ipv6Model, v6_is_auto};

verus! {

/// A kernel interface with its optional per-family settings.
#[derive(Debug, Clone, PartialEq, Eq)]
pub struct Interface {
    pub name: String,
    pub ipv4: Option<InterfaceIpv4>,
    pub ipv6: Option<InterfaceIpv6>,
}

/// A set of interfaces, at most one per name (`wf`).
#[derive(Debug, Clone, PartialEq, Eq)]
pub struct Interfaces {
    pub kernel_ifaces: Vec<Interface>,
}

/// The value of an `Interface`.
pub struct InterfaceModel {
    pub name: Seq<char>,
    pub ipv4: Option<Ipv4Model>,
    pub ipv6: Option<Ipv6Model>,
}

impl View for Interface {
    type V = InterfaceModel;

    open spec fn view(&self) -> InterfaceModel {
        InterfaceModel {
            name: self.name@,
            ipv4: match self.ipv4 {
                Some(c) => Some(c@),
                None => None,
            },
            ipv6: match self.ipv6 {
                Some(c) => Some(c@),
                None => None,
            },
        }
    }
}

impl View for Interfaces {
    type V = Seq<InterfaceModel>;

    open spec fn view(&self) -> Seq<InterfaceModel> {
        self.kernel_ifaces@.map_values(|i: Interface| i@)
    }
}

impl Interfaces {
    /// Each name occurs once.
    pub open spec fn wf(&self) -> bool {
        forall|i: int, j: int|
            0 <= i < j < self@.len() ==> #[trigger] self@[i].name != #[trigger] self@[j].name
    }

    /// Whether each name occurs once.
    pub fn is_well_formed(&self) -> (r: bool)
        ensures
            r == self.wf(),
    {
        let n = self.kernel_ifaces.len();
        let mut i: usize = 0;
        while i < n
            invariant
                n == self.kernel_ifaces@.len(),
                i <= n,
                forall|a: int, b: int| 0 <= a < b < n && a < i ==> #[trigger] self@[a].name
                    != #[trigger] self@[b].name,
            decreases n - i,
        {
            let mut j: usize = i + 1;
            while j < n
                invariant
                    n == self.kernel_ifaces@.len(),
                    i < n,
                    i + 1 <= j <= n,
                    forall|a: int, b: int| 0 <= a < b < n && a < i ==> #[trigger] self@[a].name
                        != #[trigger] self@[b].name,
                    forall|b: int| i < b < j ==> self@[i as int].name != #[trigger] self@[b].name,
                decreases n - j,
            {
                if self.kernel_ifaces[i].name == self.kernel_ifaces[j].name {
                    proof {
                        assert(self@[i as int] == self.kernel_ifaces@[i as int]@);
                        assert(self@[j as int] == self.kernel_ifaces@[j as int]@);
                        assert(self@[i as int].name == self@[j as int].name);
                        assert(!self.wf());
                    }
                    return false;
                }
                proof {
                    assert(self@[i as int] == self.kernel_ifaces@[i as int]@);
                    assert(self@[j as int] == self.kernel_ifaces@[j as int]@);
                }
                j += 1;
            }
            i += 1;
        }
        true
    }
}

/// The first interface of `s` with this name.
pub open spec fn first_named(s: Seq<InterfaceModel>, name: Seq<char>) -> Option<InterfaceModel>
    decreases s.len(),
{
    if s.len() == 0 {
        None
    } else if s[0].name == name {
        Some(s[0])
    } else {
        first_named(s.subrange(1, s.len() as int), name)
    }
}

/// Switching IPv4 from automatic to manual without addresses keeps the
/// addresses the automatic mode had assigned.
pub open spec fn v4_retained(d: Ipv4Model, c: Ipv4Model) -> Ipv4Model {
    if v4_is_auto(c) && has_addrs(c.addresses) && d.enabled && !v4_is_auto(d)
        && d.addresses is None {
        Ipv4Model { addresses: c.addresses, ..d }
    } else {
        d
    }
}

/// Switching IPv6 from automatic to manual without addresses keeps the
/// addresses the automatic mode had assigned.
pub open spec fn v6_retained(d: Ipv6Model, c: Ipv6Model) -> Ipv6Model {
    if v6_is_auto(c) && has_addrs(c.addresses) && d.enabled && !v6_is_auto(d)
        && d.addresses is None {
        Ipv6Model { addresses: c.addresses, ..d }
    } else {
        d
    }
}

/// The desired interface with both families' retained addresses filled in
/// from the current one, if there is one.
pub open spec fn iface_retained(d: InterfaceModel, c: Option<InterfaceModel>) -> InterfaceModel {
    match c {
        None => d,
        Some(c) => InterfaceModel {
            name: d.name,
            ipv4: match (d.ipv4, c.ipv4) {
                (Some(x), Some(y)) => Some(v4_retained(x, y)),
                _ => d.ipv4,
            },
            ipv6: match (d.ipv6, c.ipv6) {
                (Some(x), Some(y)) => Some(v6_retained(x, y)),
                _ => d.ipv6,
            },
        },
    }
}

proof fn lemma_first_named(s: Seq<InterfaceModel>, name: Seq<char>, k: int)
    requires
        0 <= k <= s.len(),
        forall|j: int| 0 <= j < k ==> (#[trigger] s[j]).name != name,
        k < s.len() ==> s[k].name == name,
    ensures
        first_named(s, name) == (if k < s.len() { Some(s[k]) } else { None }),
    decreases k,
{
    if s.len() > 0 && k > 0 {
        let rest = s.subrange(1, s.len() as int);
        assert forall|j: int| 0 <= j < k - 1 implies (#[trigger] rest[j]).name != name by {
            assert(rest[j] == s[j + 1]);
        }
        lemma_first_named(rest, name, k - 1);
        if k < s.len() {
            assert(rest[k - 1] == s[k]);
        }
    }
}

/// The index of the first interface with this name.
pub fn find_iface_index(ifaces: &Vec<Interface>, name: &String) -> (r: Option<usize>)
    ensures
        match r {
            Some(k) => k < ifaces@.len() && ifaces@[k as int].name@ == name@ && forall|j: int|
                0 <= j < k ==> (#[trigger] ifaces@[j]).name@ != name@,
            None => forall|j: int| 0 <= j < ifaces@.len() ==> (#[trigger] ifaces@[j]).name@ != name@,
        },
{
    let mut i: usize = 0;
    while i < ifaces.len()
        invariant
            i <= ifaces@.len(),
            forall|j: int| 0 <= j < i ==> (#[trigger] ifaces@[j]).name@ != name@,
        decreases ifaces@.len() - i,
    {
        if ifaces[i].name == *name {
            return Some(i);
        }
        i += 1;
    }
    None
}

fn retain_v4(d: &mut Option<InterfaceIpv4>, c: &InterfaceIpv4)
    ensures
        match *old(d) {
            Some(x) => *final(d) matches Some(y) && y@ == v4_retained(x@, c@),
            None => *final(d) is None,
        },
{
    if c.is_auto() && has_addresses(&c.addresses) {
        if let Some(x) = d {
            if x.enabled && !x.is_auto() && x.addresses.is_none() {
                x.addresses = copy_opt_addrs(&c.addresses);
            }
        }
    }
}

fn retain_v6(d: &mut Option<InterfaceIpv6>, c: &InterfaceIpv6)
    ensures
        match *old(d) {
            Some(x) => *final(d) matches Some(y) && y@ == v6_retained(x@, c@),
            None => *final(d) is None,
        },
{
    if c.is_auto() && has_addresses(&c.addresses) {
        if let Some(x) = d {
            if x.enabled && !x.is_auto() && x.addresses.is_none() {
                x.addresses = copy_opt_addrs(&c.addresses);
            }
        }
    }
}

fn retain_iface(d: &mut Interface, c: &Interface)
    ensures
        final(d)@ == iface_retained(old(d)@, Some(c@)),
{
    if let Some(cur) = &c.ipv4 {
        retain_v4(&mut d.ipv4, cur);
    }
    if let Some(cur) = &c.ipv6 {
        retain_v6(&mut d.ipv6, cur);
    }
}

/// For each desired interface that is also current, and each family: when
/// the current config is automatic with addresses and the desired one is
/// enabled, manual and gives no address list, the current addresses are
/// copied into the desired config.
pub fn include_current_ip_address_if_dhcp_on_to_off(
    chg_net_state: &mut Interfaces,
    current: &Interfaces,
)
    requires
        old(chg_net_state).wf(),
        current.wf(),
    ensures
        final(chg_net_state).wf(),
        final(chg_net_state)@.len() == old(chg_net_state)@.len(),
        forall|i: int|
            0 <= i < old(chg_net_state)@.len() ==> #[trigger] final(chg_net_state)@[i]
                == iface_retained(
                old(chg_net_state)@[i],
                first_named(current@, old(chg_net_state)@[i].name),
            ),
{
    let ghost old_ifaces = chg_net_state@;
    let n = chg_net_state.kernel_ifaces.len();
    let mut i: usize = 0;
    while i < n
        invariant
            i <= n,
            n == old_ifaces.len(),
            chg_net_state@.len() == n,
            forall|j: int|
                0 <= j < i ==> #[trigger] chg_net_state@[j] == iface_retained(
                    old_ifaces[j],
                    first_named(current@, old_ifaces[j].name),
                ),
            forall|j: int| i <= j < n ==> #[trigger] chg_net_state@[j] == old_ifaces[j],
        decreases n - i,
    {
        let found = find_iface_index(&current.kernel_ifaces, &chg_net_state.kernel_ifaces[i].name);
        let ghost name = old_ifaces[i as int].name;
        proof {
            assert(chg_net_state@[i as int] == chg_net_state.kernel_ifaces@[i as int]@);
            let k = match found {
                Some(k) => k as int,
                None => current@.len() as int,
            };
            assert forall|j: int| 0 <= j < k implies (#[trigger] current@[j]).name != name by {
                assert(current@[j] == current.kernel_ifaces@[j]@);
            }
            if k < current@.len() {
                assert(current@[k] == current.kernel_ifaces@[k]@);
            }
            lemma_first_named(current@, name, k);
        }
        let ghost before = chg_net_state.kernel_ifaces@;
        let ghost before_view = chg_net_state@;
        assert forall|j: int| 0 <= j < n implies #[trigger] before_view[j] == before[j]@ by {}
        if let Some(k) = found {
            retain_iface(&mut chg_net_state.kernel_ifaces[i], &current.kernel_ifaces[k]);
        }
        proof {
            assert forall|j: int| 0 <= j < n && j != i implies #[trigger] chg_net_state@[j]
                == before[j]@ by {
                assert(chg_net_state.kernel_ifaces@[j] == before[j]);
            }
            assert(chg_net_state@[i as int] == chg_net_state.kernel_ifaces@[i as int]@);
            assert(before[i as int]@ == old_ifaces[i as int]);
            assert forall|j: int| 0 <= j < n && j != i implies #[trigger] chg_net_state@[j]
                == before_view[j] by {
                assert(chg_net_state.kernel_ifaces@[j] == before[j]);
            }
        }
        i += 1;
    }
}

} // verus!
