//! Network addresses and interfaces: which interface the user named, and
//! which address the server binds to.

use vstd::prelude::*;
use vstd::string::*;
use crate::text::same_text;

verus! {

/// An IP address, held as its numeric value (the big-endian reading of its
/// octets, as `u32::from(Ipv4Addr)` and `u128::from(Ipv6Addr)` give it).
#[derive(PartialEq, Eq, Structural, Clone, Copy, Debug)]
pub enum IpAddress {
    V4(u32),
    V6(u128),
}

/// A network interface of the machine, with the addresses it holds.
#[derive(Clone, Debug)]
pub struct NetworkInterface {
    pub name: String,
    pub ipv4: Vec<u32>,
    pub ipv6: Vec<u128>,
}

/// The address a server listens on.
#[derive(PartialEq, Eq, Structural, Clone, Copy, Debug)]
pub struct ServerAddress {
    pub ip: IpAddress,
    pub port: u16,
}

/// Whether the interface holds an address to bind to.
pub open spec fn has_address(iface: NetworkInterface) -> bool {
    iface.ipv4@.len() > 0 || iface.ipv6@.len() > 0
}

/// Whether `i` is the position of the first interface called `name`.
pub open spec fn is_first_named(ifaces: Seq<NetworkInterface>, name: Seq<char>, i: int) -> bool {
    &&& 0 <= i < ifaces.len()
    &&& ifaces[i].name@ == name
    &&& forall|j: int| 0 <= j < i ==> (#[trigger] ifaces[j]).name@ != name
}

/// Whether some interface is called `name`.
pub open spec fn has_named(ifaces: Seq<NetworkInterface>, name: Seq<char>) -> bool {
    exists|i: int| 0 <= i < ifaces.len() && (#[trigger] ifaces[i]).name@ == name
}

/// Why an interface name was refused.
pub enum InterfaceError {
    /// The interface exists but holds no IPv4 or IPv6 address.
    NoAddress { name: String },
    /// No interface has that name.
    UnknownName { name: String },
}

impl InterfaceError {
    /// The message shown for the error.
    pub fn message(&self) -> (m: String)
        ensures
            match self {
                InterfaceError::NoAddress { name } => m@ == "interface "@ + name@
                    + " has no IPv4 or IPv6 address to bind to"@,
                InterfaceError::UnknownName { name } => m@ == name@ + " is not a valid interface name"@,
            },
    {
        match self {
            InterfaceError::NoAddress { name } => {
                let mut m = String::from_str("interface ");
                m.append(name.as_str());
                m.append(" has no IPv4 or IPv6 address to bind to");
                m
            },
            InterfaceError::UnknownName { name } => {
                let mut m = name.clone();
                m.append(" is not a valid interface name");
                m
            },
        }
    }
}

/// Picks the interface called `name` among the machine's interfaces, as the
/// command line's `--interface` does: the first interface with that name,
/// which must hold an address.
pub fn is_network_interface_valid(interfaces: Vec<NetworkInterface>, name: &str) -> (res: Result<
    NetworkInterface,
    InterfaceError,
>)
    ensures
        match res {
            Ok(iface) => exists|i: int|
                #![trigger is_first_named(interfaces@, name@, i)]
                is_first_named(interfaces@, name@, i) && iface == interfaces@[i] && has_address(iface),
            Err(InterfaceError::NoAddress { name: n }) => n@ == name@ && exists|i: int|
                #![trigger is_first_named(interfaces@, name@, i)]
                is_first_named(interfaces@, name@, i) && !has_address(interfaces@[i]),
            Err(InterfaceError::UnknownName { name: n }) => n@ == name@ && !has_named(
                interfaces@,
                name@,
            ),
        },
{
    let ghost all = interfaces@;
    let mut list = interfaces;
    let n = list.len();
    let mut i: usize = 0;
    while i < n
        invariant
            list@ == all,
            all == interfaces@,
            n == all.len(),
            i <= n,
            forall|j: int| 0 <= j < i ==> (#[trigger] all[j]).name@ != name@,
        decreases n - i,
    {
        if same_text(list[i].name.as_str(), name) {
            assert(is_first_named(all, name@, i as int));
            if list[i].ipv4.len() == 0 && list[i].ipv6.len() == 0 {
                return Err(InterfaceError::NoAddress { name: String::from_str(name) });
            }
            return Ok(list.remove(i));
        }
        i = i + 1;
    }
    Err(InterfaceError::UnknownName { name: String::from_str(name) })
}

/// The address of an interface that the server binds to: its first IPv4
/// address, or its first IPv6 address when it has no IPv4 address.
pub open spec fn interface_ip(iface: NetworkInterface) -> IpAddress {
    if iface.ipv4@.len() == 0 {
        IpAddress::V6(iface.ipv6@[0])
    } else {
        IpAddress::V4(iface.ipv4@[0])
    }
}

/// An interface with an IPv4 address is bound on its first IPv4 address,
/// whatever IPv6 addresses it also holds; its first IPv6 address is used only
/// when it has no IPv4 address at all.
pub proof fn lemma_interface_ip_prefers_ipv4(iface: NetworkInterface)
    ensures
        iface.ipv4@.len() > 0 ==> interface_ip(iface) == IpAddress::V4(iface.ipv4@[0]),
        iface.ipv4@.len() == 0 ==> interface_ip(iface) == IpAddress::V6(iface.ipv6@[0]),
        interface_ip(iface) is V6 ==> iface.ipv4@.len() == 0,
{
}

/// The address to bind to on an interface.
pub fn get_interface_ip(iface: &NetworkInterface) -> (ip: IpAddress)
    requires
        has_address(*iface),
    ensures
        ip == interface_ip(*iface),
        iface.ipv4@.len() > 0 ==> ip == IpAddress::V4(iface.ipv4@[0]),
        iface.ipv4@.len() == 0 ==> ip == IpAddress::V6(iface.ipv6@[0]),
{
    if iface.ipv4.len() == 0 {
        IpAddress::V6(iface.ipv6[0])
    } else {
        IpAddress::V4(iface.ipv4[0])
    }
}

/// The address the user asked for, directly with `--ip` or through
/// `--interface`; `None` means that the machine's default interface decides.
/// An address given with `--ip` wins over an interface.
pub fn requested_ip(ip: Option<IpAddress>, interface: &Option<NetworkInterface>) -> (r: Option<
    IpAddress,
>)
    requires
        ip is None && interface is Some ==> has_address(interface->0),
    ensures
        ip is Some ==> r == ip,
        ip is None && interface is Some ==> r == Some(interface_ip(interface->0)),
        interface matches Some(i) ==> (ip is None && i.ipv4@.len() > 0 ==> r == Some(
            IpAddress::V4(i.ipv4@[0]),
        )),
        interface matches Some(i) ==> (ip is None && i.ipv4@.len() == 0 ==> r == Some(
            IpAddress::V6(i.ipv6@[0]),
        )),
        ip is None && interface is None ==> r is None,
{
    match ip {
        Some(addr) => Some(addr),
        None => match interface {
            Some(iface) => Some(get_interface_ip(iface)),
            None => None,
        },
    }
}

} // verus!
