//! Resolution of a network-interface name to its IPv4 address, over an
//! explicit lookup table of the host's interfaces.
//!
//! The table itself is enumerated once by the caller (outside this library,
//! since it reads the host's configuration) and handed in as plain values;
//! the lookup here is the decision: the first entry with the given name
//! yields its IPv4 address, an entry without one — or no entry at all —
//! yields the unspecified address.

use vstd::prelude::*;

verus! {

/// An IPv4 address as its four octets.
#[derive(Clone, Copy, PartialEq, Eq, Structural, Debug)]
pub struct Ipv4 {
    /// First octet.
    pub a: u8,
    /// Second octet.
    pub b: u8,
    /// Third octet.
    pub c: u8,
    /// Fourth octet.
    pub d: u8,
}

/// The unspecified address, `0.0.0.0`: the default when resolution finds
/// nothing.
pub open spec fn unspecified_ip() -> Ipv4 {
    Ipv4 { a: 0, b: 0, c: 0, d: 0 }
}

/// The address an interface carries: an IPv4 address, or one of another
/// family, which resolution treats as absent.
#[derive(Clone, Copy, PartialEq, Eq, Structural, Debug)]
pub enum IfAddr {
    /// An IPv4 address.
    V4(Ipv4),
    /// An address of another family.
    Other,
}

/// One enumerated host interface: its name and its address.
pub struct InterfaceEntry {
    /// The interface's name.
    pub name: String,
    /// The interface's address.
    pub addr: IfAddr,
}

/// The address the table resolves `name` to: the IPv4 address of the first
/// entry so named, or the unspecified address when that entry carries no
/// IPv4 address or no entry matches.
pub open spec fn lookup_ip(entries: Seq<InterfaceEntry>, name: Seq<char>) -> Ipv4
    decreases entries.len(),
{
    if entries.len() == 0 {
        unspecified_ip()
    } else if entries[0].name@ == name {
        match entries[0].addr {
            IfAddr::V4(ip) => ip,
            IfAddr::Other => unspecified_ip(),
        }
    } else {
        lookup_ip(entries.drop_first(), name)
    }
}

impl Ipv4 {
    /// The unspecified address, `0.0.0.0`.
    pub fn unspecified() -> (r: Ipv4)
        ensures
            r == unspecified_ip(),
    {
        Ipv4 { a: 0, b: 0, c: 0, d: 0 }
    }
}

/// Resolve an interface name against the enumerated table, defaulting to the
/// unspecified address when the name is absent or carries no IPv4 address.
pub fn get_interface_ip(entries: &Vec<InterfaceEntry>, if_name: &String) -> (r: Ipv4)
    ensures
        r == lookup_ip(entries@, if_name@),
{
    let mut i: usize = 0;
    proof {
        assert(entries@.skip(0) =~= entries@);
    }
    while i < entries.len()
        invariant
            i <= entries.len(),
            lookup_ip(entries@, if_name@) == lookup_ip(entries@.skip(i as int), if_name@),
        decreases entries.len() - i,
    {
        let e = &entries[i];
        proof {
            assert(entries@.skip(i as int)[0] == entries@[i as int]);
            assert(entries@.skip(i as int).drop_first() =~= entries@.skip(i + 1));
        }
        if e.name == *if_name {
            match e.addr {
                IfAddr::V4(ip) => {
                    return ip;
                },
                IfAddr::Other => {
                    return Ipv4::unspecified();
                },
            }
        }
        i = i + 1;
    }
    Ipv4::unspecified()
}

} // verus!
