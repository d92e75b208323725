//! The addresses of a network interface, and the one that the status line
//! shows.

use crate::error::ErrorKind;
use crate::text::{number_text, push_number};
use vstd::prelude::*;
use vstd::string::*;

verus! {

/// The kind of an interface address.
#[derive(Debug, Clone, Copy, PartialEq, Eq, Structural)]
pub enum Kind {
    /// An IPv4 address.
    Ipv4,
    /// An IPv6 address.
    Ipv6,
    /// A link address.
    Link,
    /// An address of a family that is not known, with its number.
    Unknown(i32),
    /// A packet address.
    Packet,
}

/// An IPv4 address, as its four octets.
#[derive(Debug, Clone, Copy, PartialEq, Eq)]
pub struct Ipv4 {
    /// The octets, in the order in which they are written.
    pub octets: [u8; 4],
}

/// A single address of a network interface.
#[derive(Debug, Clone, Copy, PartialEq, Eq)]
pub struct Address {
    /// The kind of address this is.
    pub kind: Kind,
    /// The IPv4 address itself, where the entry has one.
    pub addr: Option<Ipv4>,
}

/// A network interface with the addresses that are bound to it.
#[derive(Debug, Clone, PartialEq, Eq)]
pub struct Interface {
    /// The name of this interface.
    pub name: String,
    /// All addresses for this interface, in the order in which the system
    /// lists them.
    pub addresses: Vec<Address>,
}

/// The address of the first entry that is of kind IPv4 and has an address.
pub open spec fn first_ipv4(addresses: Seq<Address>) -> Option<Ipv4>
    decreases addresses.len(),
{
    if addresses.len() == 0 {
        None
    } else if addresses[0].kind is Ipv4 && addresses[0].addr is Some {
        addresses[0].addr
    } else {
        first_ipv4(addresses.skip(1))
    }
}

/// The address that is shown where an interface has no IPv4 address:
/// `0.0.0.0`.
pub open spec fn unspecified() -> Ipv4 {
    Ipv4 { octets: [0u8, 0u8, 0u8, 0u8] }
}

/// The dotted notation of an IPv4 address.
pub open spec fn ipv4_text(ip: Ipv4) -> Seq<char> {
    number_text(ip.octets[0] as nat) + seq!['.'] + number_text(ip.octets[1] as nat) + seq!['.']
        + number_text(ip.octets[2] as nat) + seq!['.'] + number_text(ip.octets[3] as nat)
}

/// The first IPv4 address is found behind any entries that have none.
pub proof fn lemma_first_ipv4_skips(addresses: Seq<Address>, k: int)
    requires
        0 <= k <= addresses.len(),
        forall|i: int| 0 <= i < k ==> !(addresses[i].kind is Ipv4 && addresses[i].addr is Some),
    ensures
        first_ipv4(addresses) == first_ipv4(addresses.skip(k)),
    decreases k,
{
    if k > 0 {
        lemma_first_ipv4_skips(addresses.skip(1), k - 1);
        assert(addresses.skip(1).skip(k - 1) =~= addresses.skip(k));
    } else {
        assert(addresses.skip(0) =~= addresses);
    }
}

impl Ipv4 {
    /// The address `0.0.0.0`.
    pub fn unspecified() -> (ip: Ipv4)
        ensures
            ip == unspecified(),
    {
        Ipv4 { octets: [0u8, 0u8, 0u8, 0u8] }
    }

    /// Renders the address in dotted notation.
    pub fn to_text(&self) -> (text: String)
        ensures
            text@ == ipv4_text(*self),
    {
        proof {
            reveal_strlit(".");
        }
        let mut text = String::new();
        push_number(&mut text, self.octets[0] as u128);
        text.append(".");
        push_number(&mut text, self.octets[1] as u128);
        text.append(".");
        push_number(&mut text, self.octets[2] as u128);
        text.append(".");
        push_number(&mut text, self.octets[3] as u128);
        assert(text@ =~= ipv4_text(*self));
        text
    }
}

/// The IPv4 address of an interface.
pub trait InterfaceIPv4 {
    /// The addresses of the interface.
    spec fn listed(&self) -> Seq<Address>;

    /// Return **IPv4** Address of given interface if present, None
    /// otherwise: the first one on its list.
    fn local_ipv4(&self) -> (ip: Option<Ipv4>)
        ensures
            ip == first_ipv4(self.listed()),
    ;
}

impl InterfaceIPv4 for Interface {
    open spec fn listed(&self) -> Seq<Address> {
        self.addresses@
    }

    fn local_ipv4(&self) -> (ip: Option<Ipv4>) {
        let mut i: usize = 0;
        while i < self.addresses.len()
            invariant
                i <= self.addresses.len(),
                forall|j: int|
                    0 <= j < i ==> !(self.addresses@[j].kind is Ipv4 && self.addresses@[j].addr
                        is Some),
            decreases self.addresses.len() - i,
        {
            let address = &self.addresses[i];
            if let Kind::Ipv4 = address.kind {
                if let Some(ip) = address.addr {
                    proof {
                        lemma_first_ipv4_skips(self.addresses@, i as int);
                    }
                    return Some(ip);
                }
            }
            i += 1;
        }
        proof {
            lemma_first_ipv4_skips(self.addresses@, i as int);
        }
        None
    }
}

/// Retrieve local IPv4 of network interface `interface`, where `found` is
/// what the lookup of that name gave.
///
/// An interface that was not found is `ErrorKind::InterfaceNotFound` with
/// its name. One that was found gives its first IPv4 address, or `0.0.0.0`
/// where it has none.
pub fn local_ipv4(interface: &str, found: Option<&Interface>) -> (ip: Result<Ipv4, ErrorKind>)
    ensures
        match found {
            Some(entry) => ip == Ok::<Ipv4, ErrorKind>(
                match first_ipv4(entry.addresses@) {
                    Some(address) => address,
                    None => unspecified(),
                },
            ),
            None => ip matches Err(ErrorKind::InterfaceNotFound(name)) && name@ == interface@,
        },
{
    match found {
        Some(entry) => match entry.local_ipv4() {
            Some(address) => Ok(address),
            None => Ok(Ipv4::unspecified()),
        },
        None => Err(ErrorKind::InterfaceNotFound(String::from_str(interface))),
    }
}

} // verus!
