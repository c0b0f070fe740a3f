use vstd::prelude::*;
use vstd::seq_lib::{to_multiset_build, to_multiset_insert};
use vstd::string::StringSliceAdditionalSpecFns;
use crate::error::{ErrorKind, NmError};

verus! {

/// An IP address held as its numeric value: IPv4 as a 32-bit and IPv6 as a
/// 128-bit big-endian integer.
#[derive(Debug, Clone, Copy, PartialEq, Eq, Structural)]
pub enum IpAddress {
    V4(u32),
    V6(u128),
}

/// An address with its prefix length.
#[derive(Debug, Clone, Copy, PartialEq, Eq, Structural)]
pub struct InterfaceIpAddr {
    pub ip: IpAddress,
    pub prefix_length: u8,
}

impl IpAddress {
    /// IPv4 addresses order before IPv6 ones.
    pub open spec fn family_rank(self) -> int {
        match self {
            IpAddress::V4(_) => 0,
            IpAddress::V6(_) => 1,
        }
    }

    pub open spec fn value(self) -> int {
        match self {
            IpAddress::V4(v) => v as int,
            IpAddress::V6(v) => v as int,
        }
    }
}

/// The order of IP addresses: by family, then by numeric value.
pub open spec fn ip_lt(a: IpAddress, b: IpAddress) -> bool {
    a.family_rank() < b.family_rank() || (a.family_rank() == b.family_rank() && a.value()
        < b.value())
}

/// The order of addresses: by IP address, then by prefix length.
pub open spec fn addr_lt(a: InterfaceIpAddr, b: InterfaceIpAddr) -> bool {
    ip_lt(a.ip, b.ip) || (a.ip == b.ip && a.prefix_length < b.prefix_length)
}

/// An IPv6 unicast link-local address: inside fe80::/10, with a prefix of at
/// least 10 bits.
pub open spec fn is_link_local(a: InterfaceIpAddr) -> bool {
    match a.ip {
        IpAddress::V6(v) => (v >> 118u128) == 0x3fa && a.prefix_length >= 10,
        IpAddress::V4(_) => false,
    }
}

pub open spec fn addrs_sorted(s: Seq<InterfaceIpAddr>) -> bool {
    forall|i: int, j: int| 0 <= i < j < s.len() ==> !addr_lt(#[trigger] s[j], #[trigger] s[i])
}

/// `s` with `x` placed before the first element greater than it.
pub open spec fn insert_sorted(x: InterfaceIpAddr, s: Seq<InterfaceIpAddr>) -> Seq<InterfaceIpAddr>
    decreases s.len(),
{
    if s.len() == 0 {
        seq![x]
    } else if addr_lt(x, s[0]) {
        seq![x] + s
    } else {
        seq![s[0]] + insert_sorted(x, s.subrange(1, s.len() as int))
    }
}

/// `s` in ascending address order.
pub open spec fn sort_addrs(s: Seq<InterfaceIpAddr>) -> Seq<InterfaceIpAddr>
    decreases s.len(),
{
    if s.len() == 0 {
        s
    } else {
        insert_sorted(s.last(), sort_addrs(s.drop_last()))
    }
}

/// `s` without its link-local addresses, the others in their order.
pub open spec fn drop_link_local(s: Seq<InterfaceIpAddr>) -> Seq<InterfaceIpAddr>
    decreases s.len(),
{
    if s.len() == 0 {
        s
    } else if is_link_local(s.last()) {
        drop_link_local(s.drop_last())
    } else {
        drop_link_local(s.drop_last()).push(s.last())
    }
}

/// `addr_lt` is a strict total order.
pub proof fn lemma_addr_order(a: InterfaceIpAddr, b: InterfaceIpAddr, c: InterfaceIpAddr)
    ensures
        !addr_lt(a, a),
        addr_lt(a, b) ==> !addr_lt(b, a),
        addr_lt(a, b) && addr_lt(b, c) ==> addr_lt(a, c),
        a != b ==> addr_lt(a, b) || addr_lt(b, a),
{
}

proof fn lemma_insert_at(x: InterfaceIpAddr, s: Seq<InterfaceIpAddr>, j: int)
    requires
        0 <= j <= s.len(),
        forall|k: int| 0 <= k < j ==> !addr_lt(x, #[trigger] s[k]),
        j < s.len() ==> addr_lt(x, s[j]),
    ensures
        insert_sorted(x, s) == s.insert(j, x),
    decreases j,
{
    if s.len() == 0 {
        assert(s.insert(j, x) =~= seq![x]);
    } else if j == 0 {
        assert(s.insert(j, x) =~= seq![x] + s);
    } else {
        let rest = s.subrange(1, s.len() as int);
        assert forall|k: int| 0 <= k < j - 1 implies !addr_lt(x, #[trigger] rest[k]) by {
            assert(rest[k] == s[k + 1]);
        }
        lemma_insert_at(x, rest, j - 1);
        assert(s.insert(j, x) =~= seq![s[0]] + rest.insert(j - 1, x));
    }
}

proof fn lemma_insert_sorted_props(x: InterfaceIpAddr, s: Seq<InterfaceIpAddr>)
    requires
        addrs_sorted(s),
    ensures
        addrs_sorted(insert_sorted(x, s)),
        insert_sorted(x, s).len() == s.len() + 1,
        forall|i: int|
            0 <= i < insert_sorted(x, s).len() ==> #[trigger] insert_sorted(x, s)[i] == x
                || s.contains(insert_sorted(x, s)[i]),
    decreases s.len(),
{
    if s.len() == 0 {
    } else if addr_lt(x, s[0]) {
        let r = seq![x] + s;
        assert forall|i: int, j: int| 0 <= i < j < r.len() implies !addr_lt(
            #[trigger] r[j],
            #[trigger] r[i],
        ) by {
            lemma_addr_order(r[j], x, s[0]);
            if i == 0 {
                assert(r[j] == s[j - 1]);
                if j - 1 > 0 {
                    assert(!addr_lt(s[j - 1], s[0]));
                }
            } else {
                assert(r[j] == s[j - 1] && r[i] == s[i - 1]);
            }
        }
        assert forall|i: int| 0 <= i < r.len() implies #[trigger] r[i] == x || s.contains(r[i]) by {
            if i > 0 {
                assert(r[i] == s[i - 1]);
            }
        }
    } else {
        let rest = s.subrange(1, s.len() as int);
        assert forall|i: int, j: int| 0 <= i < j < rest.len() implies !addr_lt(
            #[trigger] rest[j],
            #[trigger] rest[i],
        ) by {
            assert(rest[j] == s[j + 1] && rest[i] == s[i + 1]);
        }
        lemma_insert_sorted_props(x, rest);
        let t = insert_sorted(x, rest);
        let r = seq![s[0]] + t;
        assert(insert_sorted(x, s) == r);
        assert forall|i: int, j: int| 0 <= i < j < r.len() implies !addr_lt(
            #[trigger] r[j],
            #[trigger] r[i],
        ) by {
            if i == 0 {
                assert(r[j] == t[j - 1]);
                if t[j - 1] == x {
                    lemma_addr_order(x, s[0], x);
                } else {
                    assert(rest.contains(t[j - 1]));
                    let k = choose|k: int| 0 <= k < rest.len() && rest[k] == t[j - 1];
                    assert(rest[k] == s[k + 1]);
                }
            } else {
                assert(r[j] == t[j - 1] && r[i] == t[i - 1]);
            }
        }
        assert forall|i: int| 0 <= i < r.len() implies #[trigger] r[i] == x || s.contains(r[i]) by {
            if i == 0 {
                assert(s[0] == r[0]);
            } else {
                assert(r[i] == t[i - 1]);
                if t[i - 1] != x {
                    let k = choose|k: int| 0 <= k < rest.len() && rest[k] == t[i - 1];
                    assert(s[k + 1] == r[i]);
                }
            }
        }
    }
}

/// Sorting gives an ascending sequence of the same length.
pub proof fn lemma_sort_addrs_sorted(s: Seq<InterfaceIpAddr>)
    ensures
        addrs_sorted(sort_addrs(s)),
        sort_addrs(s).len() == s.len(),
    decreases s.len(),
{
    if s.len() > 0 {
        lemma_sort_addrs_sorted(s.drop_last());
        lemma_insert_sorted_props(s.last(), sort_addrs(s.drop_last()));
    }
}

/// Sorting leaves an ascending sequence as it is.
pub proof fn lemma_sort_addrs_of_sorted(s: Seq<InterfaceIpAddr>)
    requires
        addrs_sorted(s),
    ensures
        sort_addrs(s) == s,
    decreases s.len(),
{
    if s.len() > 0 {
        let t = s.drop_last();
        let x = s.last();
        assert(addrs_sorted(t));
        lemma_sort_addrs_of_sorted(t);
        assert forall|k: int| 0 <= k < t.len() implies !addr_lt(x, #[trigger] t[k]) by {
            assert(t[k] == s[k]);
        }
        lemma_insert_at(x, t, t.len() as int);
        assert(t.insert(t.len() as int, x) =~= s);
    }
}

/// Sorting an address list twice gives the same list as sorting it once.
pub proof fn lemma_sort_addrs_idempotent(s: Seq<InterfaceIpAddr>)
    ensures
        sort_addrs(sort_addrs(s)) == sort_addrs(s),
{
    lemma_sort_addrs_sorted(s);
    lemma_sort_addrs_of_sorted(sort_addrs(s));
}

/// Whether `a` orders before `b`: by IP address, then by prefix length.
pub fn addr_less(a: &InterfaceIpAddr, b: &InterfaceIpAddr) -> (r: bool)
    ensures
        r == addr_lt(*a, *b),
{
    let ip_less = match (a.ip, b.ip) {
        (IpAddress::V4(x), IpAddress::V4(y)) => x < y,
        (IpAddress::V6(x), IpAddress::V6(y)) => x < y,
        (IpAddress::V4(_), IpAddress::V6(_)) => true,
        (IpAddress::V6(_), IpAddress::V4(_)) => false,
    };
    let same_ip = match (a.ip, b.ip) {
        (IpAddress::V4(x), IpAddress::V4(y)) => x == y,
        (IpAddress::V6(x), IpAddress::V6(y)) => x == y,
        _ => false,
    };
    ip_less || (same_ip && a.prefix_length < b.prefix_length)
}

/// Whether the address is an IPv6 one.
pub fn is_ipv6_addr(ip: &IpAddress) -> (r: bool)
    ensures
        r == (ip.family_rank() == 1),
{
    match ip {
        IpAddress::V6(_) => true,
        IpAddress::V4(_) => false,
    }
}

/// Whether the address with this prefix is an IPv6 unicast link-local one
/// (fe80::/10).
pub fn is_ipv6_unicast_link_local(ip: &IpAddress, prefix: u8) -> (r: bool)
    ensures
        r == is_link_local(InterfaceIpAddr { ip: *ip, prefix_length: prefix }),
{
    match ip {
        IpAddress::V6(v) => (*v >> 118u32) == 0x3fa && prefix >= 10,
        IpAddress::V4(_) => false,
    }
}

/// A copy of the address list.
pub fn copy_addrs(v: &Vec<InterfaceIpAddr>) -> (r: Vec<InterfaceIpAddr>)
    ensures
        r@ == v@,
{
    let mut out: Vec<InterfaceIpAddr> = Vec::new();
    let mut i: usize = 0;
    while i < v.len()
        invariant
            i <= v@.len(),
            out@ == v@.subrange(0, i as int),
        decreases v@.len() - i,
    {
        out.push(v[i]);
        i += 1;
        assert(out@ =~= v@.subrange(0, i as int));
    }
    assert(v@.subrange(0, v@.len() as int) =~= v@);
    out
}

/// The address list in ascending order of (IP address, prefix length).
pub fn sort_addresses(v: &Vec<InterfaceIpAddr>) -> (r: Vec<InterfaceIpAddr>)
    ensures
        r@ == sort_addrs(v@),
        addrs_sorted(r@),
        r@.to_multiset() == v@.to_multiset(),
{
    let mut out: Vec<InterfaceIpAddr> = Vec::new();
    assert(v@.subrange(0, 0) =~= out@);
    let mut i: usize = 0;
    while i < v.len()
        invariant
            i <= v@.len(),
            out@ == sort_addrs(v@.subrange(0, i as int)),
            out@.to_multiset() == v@.subrange(0, i as int).to_multiset(),
        decreases v@.len() - i,
    {
        let x = v[i];
        proof {
            lemma_sort_addrs_sorted(v@.subrange(0, i as int));
        }
        let mut j: usize = 0;
        while j < out.len() && !addr_less(&x, &out[j])
            invariant
                j <= out@.len(),
                forall|k: int| 0 <= k < j ==> !addr_lt(x, #[trigger] out@[k]),
            decreases out@.len() - j,
        {
            j += 1;
        }
        proof {
            lemma_insert_at(x, out@, j as int);
            let s = v@.subrange(0, i as int + 1);
            assert(s.drop_last() =~= v@.subrange(0, i as int));
            assert(s.last() == x);
            assert(s =~= v@.subrange(0, i as int).push(x));
            to_multiset_build(v@.subrange(0, i as int), x);
            to_multiset_insert(out@, j as int, x);
        }
        out.insert(j, x);
        i += 1;
    }
    assert(v@.subrange(0, v@.len() as int) =~= v@);
    proof {
        lemma_sort_addrs_sorted(v@);
    }
    out
}

/// The address list without its IPv6 link-local addresses.
pub fn remove_link_local(v: &Vec<InterfaceIpAddr>) -> (r: Vec<InterfaceIpAddr>)
    ensures
        r@ == drop_link_local(v@),
        forall|i: int| 0 <= i < r@.len() ==> !is_link_local(#[trigger] r@[i]) && v@.contains(r@[i]),
{
    let mut out: Vec<InterfaceIpAddr> = Vec::new();
    let mut i: usize = 0;
    while i < v.len()
        invariant
            i <= v@.len(),
            out@ == drop_link_local(v@.subrange(0, i as int)),
        decreases v@.len() - i,
    {
        let x = v[i];
        proof {
            let s = v@.subrange(0, i as int + 1);
            assert(s.drop_last() =~= v@.subrange(0, i as int));
            assert(s.last() == x);
        }
        if !is_ipv6_unicast_link_local(&x.ip, x.prefix_length) {
            out.push(x);
        }
        i += 1;
    }
    assert(v@.subrange(0, v@.len() as int) =~= v@);
    proof {
        lemma_drop_link_local_excludes(v@);
    }
    out
}

impl Default for InterfaceIpAddr {
    /// The IPv6 loopback address, ::1/128.
    fn default() -> (r: Self)
        ensures
            r.ip == IpAddress::V6(1),
            r.prefix_length == 128,
    {
        InterfaceIpAddr { ip: IpAddress::V6(1), prefix_length: 128 }
    }
}

impl InterfaceIpAddr {
    /// The address with the full-length prefix of its family: 32 for IPv4,
    /// 128 for IPv6.
    pub fn with_default_prefix(ip: IpAddress) -> (r: Self)
        ensures
            r.ip == ip,
            r.prefix_length == (if ip.family_rank() == 1 { 128u8 } else { 32u8 }),
    {
        let prefix_length: u8 = if is_ipv6_addr(&ip) {
            128
        } else {
            32
        };
        InterfaceIpAddr { ip, prefix_length }
    }
}

/// Every address of the sorted list is one of the input.
pub proof fn lemma_sort_addrs_elements(s: Seq<InterfaceIpAddr>)
    ensures
        forall|i: int| 0 <= i < sort_addrs(s).len() ==> s.contains(#[trigger] sort_addrs(s)[i]),
    decreases s.len(),
{
    if s.len() > 0 {
        let t = s.drop_last();
        lemma_sort_addrs_elements(t);
        lemma_sort_addrs_sorted(t);
        lemma_insert_sorted_props(s.last(), sort_addrs(t));
        assert forall|i: int| 0 <= i < sort_addrs(s).len() implies s.contains(
            #[trigger] sort_addrs(s)[i],
        ) by {
            let y = sort_addrs(s)[i];
            if y == s.last() {
                assert(s[s.len() - 1] == y);
            } else {
                let k = choose|k: int| 0 <= k < sort_addrs(t).len() && sort_addrs(t)[k] == y;
                let m = choose|m: int| 0 <= m < t.len() && t[m] == y;
                assert(s[m] == y);
            }
        }
    }
}

/// No link-local address is left once they are dropped.
pub proof fn lemma_drop_link_local_excludes(s: Seq<InterfaceIpAddr>)
    ensures
        forall|i: int|
            0 <= i < drop_link_local(s).len() ==> !is_link_local(#[trigger] drop_link_local(s)[i])
                && s.contains(drop_link_local(s)[i]),
    decreases s.len(),
{
    if s.len() > 0 {
        let t = s.drop_last();
        lemma_drop_link_local_excludes(t);
        assert forall|i: int| 0 <= i < drop_link_local(s).len() implies !is_link_local(
            #[trigger] drop_link_local(s)[i],
        ) && s.contains(drop_link_local(s)[i]) by {
            let y = drop_link_local(s)[i];
            if i < drop_link_local(t).len() {
                assert(y == drop_link_local(t)[i]);
                let m = choose|m: int| 0 <= m < t.len() && t[m] == y;
                assert(s[m] == y);
            } else {
                assert(s[s.len() - 1] == y);
            }
        }
    }
}

/// The link-local addresses of `s`, in their order.
pub open spec fn only_link_local(s: Seq<InterfaceIpAddr>) -> Seq<InterfaceIpAddr>
    decreases s.len(),
{
    if s.len() == 0 {
        s
    } else if is_link_local(s.last()) {
        only_link_local(s.drop_last()).push(s.last())
    } else {
        only_link_local(s.drop_last())
    }
}

/// The IPv6 link-local addresses of the list.
pub fn link_local_addresses(v: &Vec<InterfaceIpAddr>) -> (r: Vec<InterfaceIpAddr>)
    ensures
        r@ == only_link_local(v@),
{
    let mut out: Vec<InterfaceIpAddr> = Vec::new();
    let mut i: usize = 0;
    while i < v.len()
        invariant
            i <= v@.len(),
            out@ == only_link_local(v@.subrange(0, i as int)),
        decreases v@.len() - i,
    {
        let x = v[i];
        proof {
            let s = v@.subrange(0, i as int + 1);
            assert(s.drop_last() =~= v@.subrange(0, i as int));
            assert(s.last() == x);
        }
        if is_ipv6_unicast_link_local(&x.ip, x.prefix_length) {
            out.push(x);
        }
        i += 1;
    }
    assert(v@.subrange(0, v@.len() as int) =~= v@);
    out
}

proof fn lemma_insert_sorted_multiset(x: InterfaceIpAddr, s: Seq<InterfaceIpAddr>)
    ensures
        insert_sorted(x, s).to_multiset() == s.to_multiset().insert(x),
    decreases s.len(),
{
    if s.len() == 0 {
        to_multiset_insert(s, 0, x);
        assert(s.insert(0, x) =~= seq![x]);
    } else if addr_lt(x, s[0]) {
        to_multiset_insert(s, 0, x);
        assert(s.insert(0, x) =~= seq![x] + s);
    } else {
        let rest = s.subrange(1, s.len() as int);
        lemma_insert_sorted_multiset(x, rest);
        let t = insert_sorted(x, rest);
        to_multiset_insert(t, 0, s[0]);
        assert(t.insert(0, s[0]) =~= seq![s[0]] + t);
        to_multiset_insert(rest, 0, s[0]);
        assert(rest.insert(0, s[0]) =~= s);
        assert(rest.to_multiset().insert(x).insert(s[0]) =~= rest.to_multiset().insert(s[0]).insert(
            x,
        ));
    }
}

/// Sorting keeps every address, each as often as it occurs.
pub proof fn lemma_sort_addrs_multiset(s: Seq<InterfaceIpAddr>)
    ensures
        sort_addrs(s).to_multiset() == s.to_multiset(),
    decreases s.len(),
{
    if s.len() > 0 {
        let t = s.drop_last();
        lemma_sort_addrs_multiset(t);
        lemma_insert_sorted_multiset(s.last(), sort_addrs(t));
        to_multiset_build(t, s.last());
        assert(t.push(s.last()) =~= s);
    }
}

/// The prefix length a text gives: decimal digits after an optional `+`,
/// at most 255.
pub open spec fn digits_value(b: Seq<u8>) -> int
    decreases b.len(),
{
    if b.len() == 0 {
        0
    } else {
        digits_value(b.drop_last()) * 10 + (b.last() - 48)
    }
}

pub open spec fn all_digits(b: Seq<u8>) -> bool {
    forall|i: int| 0 <= i < b.len() ==> 48 <= #[trigger] b[i] <= 57
}

pub open spec fn unsigned_digits(b: Seq<u8>) -> Seq<u8> {
    if b.len() > 0 && b[0] == 43 {
        b.subrange(1, b.len() as int)
    } else {
        b
    }
}

/// The `u8` a decimal text stands for, if any.
pub open spec fn parsed_u8(b: Seq<u8>) -> Option<u8> {
    let d = unsigned_digits(b);
    if d.len() > 0 && all_digits(d) && digits_value(d) <= 255 {
        Some(digits_value(d) as u8)
    } else {
        None
    }
}

/// Reads a decimal `u8`: digits after an optional `+`.
pub fn parse_u8(text: &str) -> (r: Option<u8>)
    ensures
        r == parsed_u8(text.spec_bytes()),
{
    let b = text.as_bytes();
    let ghost whole = b@;
    let first: usize = if b.len() > 0 && b[0] == 43 {
        1
    } else {
        0
    };
    let ghost d = unsigned_digits(whole);
    assert(d =~= whole.subrange(first as int, whole.len() as int));
    if first == b.len() {
        return None;
    }
    let mut acc: u32 = 0;
    let mut i: usize = first;
    while i < b.len()
        invariant
            b@ == whole,
            whole == text.spec_bytes(),
            d == unsigned_digits(whole),
            first <= i <= b@.len(),
            d == whole.subrange(first as int, whole.len() as int),
            all_digits(whole.subrange(first as int, i as int)),
            acc as int == if digits_value(whole.subrange(first as int, i as int)) < 256 {
                digits_value(whole.subrange(first as int, i as int))
            } else {
                256
            },
        decreases b@.len() - i,
    {
        let c = b[i];
        if c < 48 || c > 57 {
            proof {
                assert(d[i - first] == c);
                assert(!all_digits(d));
                assert(parsed_u8(whole) is None);
            }
            return None;
        }
        let ghost p = whole.subrange(first as int, i as int);
        let ghost q = whole.subrange(first as int, i as int + 1);
        proof {
            assert(q.drop_last() =~= p);
            assert(q.last() == c);
            assert forall|k: int| 0 <= k < q.len() implies 48 <= #[trigger] q[k] <= 57 by {
                if k < p.len() {
                    assert(q[k] == p[k]);
                }
            }
            assert(digits_value(p) >= 0) by {
                lemma_digits_value_nonneg(p);
            }
            if digits_value(p) >= 256 {
                assert(digits_value(q) >= 256) by (nonlinear_arith)
                    requires
                        digits_value(q) == digits_value(p) * 10 + (c - 48),
                        digits_value(p) >= 256,
                        48 <= c,
                ;
            }
        }
        let next: u32 = acc * 10 + (c - 48) as u32;
        acc = if next > 256 {
            256
        } else {
            next
        };
        i += 1;
    }
    assert(whole.subrange(first as int, b@.len() as int) =~= d);
    if acc <= 255 {
        Some(acc as u8)
    } else {
        None
    }
}

proof fn lemma_digits_value_nonneg(b: Seq<u8>)
    requires
        all_digits(b),
    ensures
        digits_value(b) >= 0,
    decreases b.len(),
{
    if b.len() > 0 {
        assert(all_digits(b.drop_last())) by {
            assert forall|i: int| 0 <= i < b.drop_last().len() implies 48 <= #[trigger] b.drop_last()[i]
                <= 57 by {
                assert(b.drop_last()[i] == b[i]);
            }
        }
        lemma_digits_value_nonneg(b.drop_last());
        assert(b[b.len() - 1] >= 48);
    }
}

impl InterfaceIpAddr {
    /// The address from a parsed IP and the text after its `/`: an empty
    /// text gives the full-length prefix, a decimal `u8` gives that prefix,
    /// anything else is an invalid argument.
    pub fn from_parts(ip: IpAddress, prefix_text: &str) -> (r: Result<Self, NmError>)
        ensures
            prefix_text@.len() == 0 ==> r == Ok::<Self, NmError>(
                InterfaceIpAddr {
                    ip,
                    prefix_length: if ip.family_rank() == 1 { 128u8 } else { 32u8 },
                },
            ),
            prefix_text@.len() != 0 ==> match parsed_u8(prefix_text.spec_bytes()) {
                Some(p) => r == Ok::<Self, NmError>(InterfaceIpAddr { ip, prefix_length: p }),
                None => r matches Err(e) && e.kind == ErrorKind::InvalidArgument,
            },
    {
        if prefix_text.is_empty() {
            return Ok(InterfaceIpAddr::with_default_prefix(ip));
        }
        match parse_u8(prefix_text) {
            Some(prefix_length) => Ok(InterfaceIpAddr { ip, prefix_length }),
            None => Err(
                NmError::new(
                    ErrorKind::InvalidArgument,
                    String::from_str("Invalid IP address prefix length"),
                ),
            ),
        }
    }
}

} // verus!
