//! The address source: picks the candidate addresses out of what the
//! operating system reports for the monitored interface.
use vstd::prelude::*;

use crate::string_views;

verus! {

/// One address bound to an interface, as the operating system reports it.
pub struct AddrInfo {
    pub family: String,
    pub local: String,
    pub prefixlen: usize,
    pub scope: String,
}

/// One interface entry, as the operating system reports it.
pub struct InterfaceInfo {
    pub ifindex: usize,
    pub ifname: String,
    pub flags: Vec<String>,
    pub mtu: usize,
    pub qdisc: String,
    pub operstate: String,
    pub group: String,
    pub txqlen: usize,
    pub addr_info: Vec<AddrInfo>,
}

/// Why no address list could be had for the interface this cycle.
#[derive(PartialEq, Eq, Structural, Debug, Clone, Copy)]
pub enum AddressError {
    /// No entry of the report names the interface.
    NotFound,
    /// The report could not be read.
    ParseFailure,
}

/// An address is a candidate when it is an IPv6 address of global scope.
pub open spec fn is_candidate(a: AddrInfo) -> bool {
    a.family@ == "inet6"@ && a.scope@ == "global"@
}

/// The local addresses of the candidates among `addrs`, in their order.
pub open spec fn candidate_locals(addrs: Seq<AddrInfo>) -> Seq<Seq<char>>
    decreases addrs.len(),
{
    if addrs.len() == 0 {
        Seq::empty()
    } else {
        let rest = candidate_locals(addrs.drop_last());
        if is_candidate(addrs.last()) {
            rest.push(addrs.last().local@)
        } else {
            rest
        }
    }
}

/// `i` is the first entry of `infos` that is named `name`.
pub open spec fn is_first_named(infos: Seq<InterfaceInfo>, name: Seq<char>, i: int) -> bool {
    &&& 0 <= i < infos.len()
    &&& infos[i].ifname@ == name
    &&& forall|j: int| 0 <= j < i ==> infos[j].ifname@ != name
}

/// Whether the address entry is an IPv6 address of global scope.
pub fn is_global_ipv6(a: &AddrInfo) -> (r: bool)
    ensures
        r == is_candidate(*a),
{
    let inet6 = String::from_str("inet6");
    let global = String::from_str("global");
    a.family == inet6 && a.scope == global
}

/// The local addresses of the IPv6 global-scope entries of `addrs`, in the
/// order in which the operating system listed them.
pub fn global_addresses(addrs: &Vec<AddrInfo>) -> (r: Vec<String>)
    ensures
        string_views(r@) == candidate_locals(addrs@),
{
    let mut out: Vec<String> = Vec::new();
    let mut i: usize = 0;
    while i < addrs.len()
        invariant
            i <= addrs.len(),
            string_views(out@) == candidate_locals(addrs@.take(i as int)),
        decreases addrs.len() - i,
    {
        let a = &addrs[i];
        assert(addrs@.take(i + 1).drop_last() =~= addrs@.take(i as int));
        if is_global_ipv6(a) {
            out.push(a.local.clone());
            assert(string_views(out@) =~= candidate_locals(addrs@.take(i as int)).push(a.local@));
        }
        i = i + 1;
    }
    assert(addrs@.take(addrs.len() as int) =~= addrs@);
    out
}

/// The candidate addresses of the interface `name`: the IPv6 global-scope
/// addresses of the first entry of `infos` that carries that name, in their
/// reported order. `NotFound` when no entry carries it.
pub fn candidate_addresses(infos: &Vec<InterfaceInfo>, name: &str) -> (r: Result<
    Vec<String>,
    AddressError,
>)
    ensures
        match r {
            Ok(v) => exists|i: int|
                is_first_named(infos@, name@, i) && string_views(v@) == candidate_locals(
                    infos@[i].addr_info@,
                ),
            Err(e) => e == AddressError::NotFound && forall|i: int|
                0 <= i < infos.len() ==> infos@[i].ifname@ != name@,
        },
{
    let wanted = String::from_str(name);
    let mut i: usize = 0;
    while i < infos.len()
        invariant
            i <= infos.len(),
            wanted@ == name@,
            forall|j: int| 0 <= j < i ==> infos@[j].ifname@ != name@,
        decreases infos.len() - i,
    {
        if infos[i].ifname == wanted {
            let v = global_addresses(&infos[i].addr_info);
            assert(is_first_named(infos@, name@, i as int));
            return Ok(v);
        }
        i = i + 1;
    }
    Err(AddressError::NotFound)
}

} // verus!
