//! The table of user handlers for protocols that are not built in.
use vstd::prelude::*;
use std::collections::HashMap;
use crate::info::PacketInfo;

verus! {

broadcast use vstd::std_specs::hash::group_hash_axioms;

/// A user-supplied dissector for one protocol. It receives the payload that
/// follows the header of the layer below and a summary on which it may call
/// `set_proto` and `set_info`; it returns the text of its detail tree, or
/// `None` when it failed.
pub trait Handler {
    fn dissect(&self, payload: &[u8], pinfo: &mut PacketInfo) -> Option<String>;
}

/// The three scopes of keys: ethertypes, IP protocol numbers, and the ports
/// of TCP and UDP.
#[derive(Clone, Copy, Debug, PartialEq, Eq, Structural)]
pub enum Scope {
    Net,
    Transport,
    Tcp,
    Udp,
}

/// Why a registration was refused.
#[derive(Clone, Copy, Debug, PartialEq, Eq, Structural)]
pub enum RegisterError {
    UnknownScope,
    KeyOutOfRange,
}

/// The scope that a name stands for: `net`, `transport`, `tcp` or `udp`.
pub open spec fn scope_of(name: Seq<char>) -> Option<Scope> {
    if name == "net"@ {
        Some(Scope::Net)
    } else if name == "transport"@ {
        Some(Scope::Transport)
    } else if name == "tcp"@ {
        Some(Scope::Tcp)
    } else if name == "udp"@ {
        Some(Scope::Udp)
    } else {
        None
    }
}

/// The largest key of a scope: 8 bits for protocol numbers, 16 for the rest.
pub open spec fn key_limit(scope: Scope) -> nat {
    match scope {
        Scope::Transport => 0xff,
        _ => 0xffff,
    }
}

/// The handlers of each scope.
pub struct TableView<H> {
    pub net: Map<u16, H>,
    pub transport: Map<u8, H>,
    pub tcp: Map<u16, H>,
    pub udp: Map<u16, H>,
}

impl<H> TableView<H> {
    /// The table with `h` stored under `key` in `scope` (`key` fits the scope).
    pub open spec fn insert(self, scope: Scope, key: nat, h: H) -> TableView<H> {
        match scope {
            Scope::Net => TableView { net: self.net.insert(key as u16, h), ..self },
            Scope::Transport => TableView { transport: self.transport.insert(key as u8, h), ..self },
            Scope::Tcp => TableView { tcp: self.tcp.insert(key as u16, h), ..self },
            Scope::Udp => TableView { udp: self.udp.insert(key as u16, h), ..self },
        }
    }

    /// The handler stored under `key` in `scope`, if any.
    pub open spec fn lookup(self, scope: Scope, key: nat) -> Option<H> {
        match scope {
            Scope::Net => if key <= 0xffff && self.net.contains_key(key as u16) {
                Some(self.net[key as u16])
            } else {
                None
            },
            Scope::Transport => if key <= 0xff && self.transport.contains_key(key as u8) {
                Some(self.transport[key as u8])
            } else {
                None
            },
            Scope::Tcp => if key <= 0xffff && self.tcp.contains_key(key as u16) {
                Some(self.tcp[key as u16])
            } else {
                None
            },
            Scope::Udp => if key <= 0xffff && self.udp.contains_key(key as u16) {
                Some(self.udp[key as u16])
            } else {
                None
            },
        }
    }
}

/// Handlers keyed by ethertype, IP protocol number, and TCP or UDP port.
pub struct DissectorTable<H> {
    net_dissectors: HashMap<u16, H>,
    transport_dissectors: HashMap<u8, H>,
    tcp_dissectors: HashMap<u16, H>,
    udp_dissectors: HashMap<u16, H>,
}

impl<H> View for DissectorTable<H> {
    type V = TableView<H>;

    closed spec fn view(&self) -> TableView<H> {
        TableView {
            net: self.net_dissectors@,
            transport: self.transport_dissectors@,
            tcp: self.tcp_dissectors@,
            udp: self.udp_dissectors@,
        }
    }
}

impl<H> DissectorTable<H> {
    /// A table with no handler in any scope.
    pub fn new() -> (r: Self)
        ensures
            r@.net == Map::<u16, H>::empty(),
            r@.transport == Map::<u8, H>::empty(),
            r@.tcp == Map::<u16, H>::empty(),
            r@.udp == Map::<u16, H>::empty(),
    {
        DissectorTable {
            net_dissectors: HashMap::new(),
            transport_dissectors: HashMap::new(),
            tcp_dissectors: HashMap::new(),
            udp_dissectors: HashMap::new(),
        }
    }

    /// The handler for an ethertype.
    pub fn net(&self, type_num: u16) -> (r: Option<&H>)
        ensures
            r is Some <==> self@.net.contains_key(type_num),
            r matches Some(h) ==> *h == self@.net[type_num],
    {
        self.net_dissectors.get(&type_num)
    }

    /// The handler for an IP protocol number.
    pub fn transport(&self, num: u8) -> (r: Option<&H>)
        ensures
            r is Some <==> self@.transport.contains_key(num),
            r matches Some(h) ==> *h == self@.transport[num],
    {
        self.transport_dissectors.get(&num)
    }

    /// The handler for a TCP port.
    pub fn tcp(&self, port_num: u16) -> (r: Option<&H>)
        ensures
            r is Some <==> self@.tcp.contains_key(port_num),
            r matches Some(h) ==> *h == self@.tcp[port_num],
    {
        self.tcp_dissectors.get(&port_num)
    }

    /// The handler for a UDP port.
    pub fn udp(&self, port_num: u16) -> (r: Option<&H>)
        ensures
            r is Some <==> self@.udp.contains_key(port_num),
            r matches Some(h) ==> *h == self@.udp[port_num],
    {
        self.udp_dissectors.get(&port_num)
    }

    /// Stores a handler for an ethertype, replacing any earlier one.
    pub fn set_net(&mut self, type_num: u16, disct_proc: H)
        ensures
            final(self)@ == old(self)@.insert(Scope::Net, type_num as nat, disct_proc),
    {
        self.net_dissectors.insert(type_num, disct_proc);
    }

    /// Stores a handler for an IP protocol number, replacing any earlier one.
    pub fn set_transport(&mut self, num: u8, disct_proc: H)
        ensures
            final(self)@ == old(self)@.insert(Scope::Transport, num as nat, disct_proc),
    {
        self.transport_dissectors.insert(num, disct_proc);
    }

    /// Stores a handler for a TCP port, replacing any earlier one.
    pub fn set_tcp(&mut self, port_num: u16, disct_proc: H)
        ensures
            final(self)@ == old(self)@.insert(Scope::Tcp, port_num as nat, disct_proc),
    {
        self.tcp_dissectors.insert(port_num, disct_proc);
    }

    /// Stores a handler for a UDP port, replacing any earlier one.
    pub fn set_udp(&mut self, port_num: u16, disct_proc: H)
        ensures
            final(self)@ == old(self)@.insert(Scope::Udp, port_num as nat, disct_proc),
    {
        self.udp_dissectors.insert(port_num, disct_proc);
    }
}

/// Whether two strings hold the same characters.
fn str_eq(a: &str, b: &str) -> (r: bool)
    ensures
        r == (a@ == b@),
{
    let n = a.unicode_len();
    if n != b.unicode_len() {
        return false;
    }
    let mut i: usize = 0;
    while i < n
        invariant
            n == a@.len(),
            n == b@.len(),
            i <= n,
            forall|j: int| 0 <= j < i ==> a@[j] == b@[j],
        decreases n - i,
    {
        if a.get_char(i) != b.get_char(i) {
            return false;
        }
        i = i + 1;
    }
    assert(a@ =~= b@);
    true
}

/// Reads the name of a scope.
pub fn scope_from_name(name: &str) -> (r: Option<Scope>)
    ensures
        r == scope_of(name@),
{
    if str_eq(name, "net") {
        Some(Scope::Net)
    } else if str_eq(name, "transport") {
        Some(Scope::Transport)
    } else if str_eq(name, "tcp") {
        Some(Scope::Tcp)
    } else if str_eq(name, "udp") {
        Some(Scope::Udp)
    } else {
        None
    }
}

/// Registers `prc` under `num` in the scope named `tbl_type`. An unknown scope
/// name, or a key too wide for its scope, is refused and leaves the table as
/// it was.
pub fn set_dissector<H>(tbl: &mut DissectorTable<H>, tbl_type: &str, num: u32, prc: H) -> (r: Result<(), RegisterError>)
    ensures
        match scope_of(tbl_type@) {
            None => r == Err::<(), RegisterError>(RegisterError::UnknownScope) && final(tbl)@ == old(tbl)@,
            Some(s) => if num > key_limit(s) {
                r == Err::<(), RegisterError>(RegisterError::KeyOutOfRange) && final(tbl)@ == old(tbl)@
            } else {
                r is Ok && final(tbl)@ == old(tbl)@.insert(s, num as nat, prc)
            },
        },
{
    match scope_from_name(tbl_type) {
        None => Err(RegisterError::UnknownScope),
        Some(Scope::Net) => {
            if num > 0xffff {
                return Err(RegisterError::KeyOutOfRange);
            }
            tbl.set_net(num as u16, prc);
            Ok(())
        },
        Some(Scope::Transport) => {
            if num > 0xff {
                return Err(RegisterError::KeyOutOfRange);
            }
            tbl.set_transport(num as u8, prc);
            Ok(())
        },
        Some(Scope::Tcp) => {
            if num > 0xffff {
                return Err(RegisterError::KeyOutOfRange);
            }
            tbl.set_tcp(num as u16, prc);
            Ok(())
        },
        Some(Scope::Udp) => {
            if num > 0xffff {
                return Err(RegisterError::KeyOutOfRange);
            }
            tbl.set_udp(num as u16, prc);
            Ok(())
        },
    }
}

} // verus!
