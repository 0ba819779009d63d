//! Node identifiers and address information.

use vstd::prelude::*;

verus! {

/// The short printable form of an identifier, as a function of its bytes: the
/// lower-case unpadded base32 text of at most the first ten of them.
pub uninterp spec fn short_form(bytes: Seq<u8>) -> Seq<char>;

/// The full printable form of an identifier, as a function of its bytes: their
/// lower-case unpadded base32 text.
pub uninterp spec fn full_form(bytes: Seq<u8>) -> Seq<char>;

/// Opaque fixed-width identifier of a node: the bytes of its public key.
#[derive(Clone, Copy, Debug, PartialEq, Eq, Hash)]
pub struct NodeId {
    bytes: [u8; 32],
}

impl View for NodeId {
    type V = Seq<u8>;

    closed spec fn view(&self) -> Seq<u8> {
        self.bytes@
    }
}

impl NodeId {
    /// An identifier made of the given bytes.
    pub fn from_bytes(bytes: [u8; 32]) -> (id: NodeId)
        ensures
            id@ == bytes@,
    {
        NodeId { bytes }
    }

    /// The bytes of the identifier.
    pub fn as_bytes(&self) -> (bytes: &[u8; 32])
        ensures
            bytes@ == self@,
    {
        &self.bytes
    }

    /// Calls `iroh_base::base32::fmt_short` on the identifier's bytes. That function
    /// encodes at most the first ten bytes as unpadded base32 and lower-cases the
    /// text; the contract only names this text as `short_form` of the bytes.
    #[verifier::external_body]
    pub(crate) fn fmt_short(&self) -> (text: String)
        ensures
            text@ == short_form(self@),
    {
        iroh_base::base32::fmt_short(&self.bytes)
    }

    /// Calls `iroh_base::base32::fmt` on the identifier's bytes. That function
    /// encodes all of them as unpadded base32 and lower-cases the text; the
    /// contract only names this text as `full_form` of the bytes.
    #[verifier::external_body]
    pub(crate) fn fmt_full(&self) -> (text: String)
        ensures
            text@ == full_form(self@),
    {
        iroh_base::base32::fmt(&self.bytes)
    }
}

/// A direct transport address: a host and a port.
#[derive(Clone, Copy, Debug, PartialEq, Eq, Structural, Hash)]
pub enum DirectAddr {
    /// An IPv4 host, its four octets read as one big-endian number, and a port.
    V4 { octets: u32, port: u16 },
    /// An IPv6 host, its eight segments read as one big-endian number, a port, and
    /// the flow information and scope of the address.
    V6 { segments: u128, port: u16, flowinfo: u32, scope_id: u32 },
}

/// What an [`AddrInfo`] means: an optional relay URL and a set of direct addresses.
pub ghost struct AddrInfoView {
    pub relay_url: Option<Seq<char>>,
    pub direct_addresses: Set<DirectAddr>,
}

impl AddrInfoView {
    /// Neither a relay URL nor a direct address.
    pub open spec fn is_empty(self) -> bool {
        self.relay_url.is_none() && self.direct_addresses =~= Set::empty()
    }
}

/// Addressing information of a node: an optional relay URL and a set of direct
/// addresses, kept in the order in which they were added.
#[derive(Clone, Debug)]
pub struct AddrInfo {
    relay_url: Option<String>,
    direct_addresses: Vec<DirectAddr>,
}

impl View for AddrInfo {
    type V = AddrInfoView;

    closed spec fn view(&self) -> AddrInfoView {
        AddrInfoView {
            relay_url: match self.relay_url {
                Some(url) => Some(url@),
                None => None,
            },
            direct_addresses: self.direct_addresses@.to_set(),
        }
    }
}

impl AddrInfo {
    /// No direct address is held twice.
    pub closed spec fn well_formed(&self) -> bool {
        self.direct_addresses@.no_duplicates()
    }

    /// The direct addresses in the order in which they were added.
    pub closed spec fn address_list(&self) -> Seq<DirectAddr> {
        self.direct_addresses@
    }

    /// Address information without a relay URL and without direct addresses.
    pub fn new() -> (info: AddrInfo)
        ensures
            info.well_formed(),
            info@.relay_url.is_none(),
            info@.direct_addresses == Set::<DirectAddr>::empty(),
            info@.is_empty(),
            info.address_list() == Seq::<DirectAddr>::empty(),
    {
        let info = AddrInfo { relay_url: None, direct_addresses: Vec::new() };
        assert(info.direct_addresses@.to_set() =~= Set::<DirectAddr>::empty());
        info
    }

    /// Sets or clears the relay URL.
    pub fn set_relay_url(&mut self, relay_url: Option<String>)
        ensures
            final(self).well_formed() == old(self).well_formed(),
            final(self).address_list() == old(self).address_list(),
            final(self)@.direct_addresses == old(self)@.direct_addresses,
            final(self)@.relay_url == (match relay_url {
                Some(url) => Some(url@),
                None => None,
            }),
    {
        self.relay_url = relay_url;
    }

    /// Adds a direct address, unless it is held already. Returns whether it was
    /// added.
    pub fn add_direct_address(&mut self, addr: DirectAddr) -> (added: bool)
        ensures
            added == !old(self)@.direct_addresses.contains(addr),
            final(self)@.relay_url == old(self)@.relay_url,
            final(self)@.direct_addresses == old(self)@.direct_addresses.insert(addr),
            final(self).address_list() == if added {
                old(self).address_list().push(addr)
            } else {
                old(self).address_list()
            },
            old(self).well_formed() ==> final(self).well_formed(),
    {
        if self.has_direct_address(addr) {
            proof {
                assert(self.direct_addresses@.to_set().insert(addr)
                    =~= self.direct_addresses@.to_set());
            }
            return false;
        }
        proof {
            assert(!self.direct_addresses@.contains(addr));
            self.direct_addresses@.lemma_push_to_set_commute(addr);
        }
        self.direct_addresses.push(addr);
        true
    }

    /// Whether the given direct address is held.
    pub fn has_direct_address(&self, addr: DirectAddr) -> (held: bool)
        ensures
            held == self@.direct_addresses.contains(addr),
    {
        let mut i: usize = 0;
        while i < self.direct_addresses.len()
            invariant
                i <= self.direct_addresses@.len(),
                forall|j: int| 0 <= j < i ==> self.direct_addresses@[j] != addr,
            decreases self.direct_addresses@.len() - i,
        {
            if self.direct_addresses[i] == addr {
                assert(self.direct_addresses@.to_set().contains(addr));
                return true;
            }
            i += 1;
        }
        assert(!self.direct_addresses@.contains(addr));
        false
    }

    /// Whether every direct address of the other is held here too.
    pub fn covers(&self, other: &AddrInfo) -> (covered: bool)
        ensures
            covered == other@.direct_addresses.subset_of(self@.direct_addresses),
    {
        let mut i: usize = 0;
        while i < other.direct_addresses.len()
            invariant
                i <= other.direct_addresses@.len(),
                forall|j: int|
                    0 <= j < i ==> self@.direct_addresses.contains(
                        #[trigger] other.direct_addresses@[j],
                    ),
            decreases other.direct_addresses@.len() - i,
        {
            if !self.has_direct_address(other.direct_addresses[i]) {
                assert(other@.direct_addresses.contains(other.direct_addresses@[i as int]));
                return false;
            }
            i += 1;
        }
        assert forall|a: DirectAddr| other@.direct_addresses.contains(a) implies self@.direct_addresses.contains(
            a,
        ) by {
            let j = choose|j: int|
                0 <= j < other.direct_addresses@.len() && other.direct_addresses@[j] == a;
            assert(self@.direct_addresses.contains(other.direct_addresses@[j]));
        }
        true
    }

    /// Whether the two hold the same relay URL and the same set of direct
    /// addresses, in whatever order these were added.
    pub fn same_as(&self, other: &AddrInfo) -> (same: bool)
        ensures
            same == (self@ == other@),
    {
        let same_url = match &self.relay_url {
            Some(mine) => match &other.relay_url {
                Some(theirs) => mine.eq(theirs),
                None => false,
            },
            None => other.relay_url.is_none(),
        };
        assert(same_url == (self@.relay_url == other@.relay_url));
        let covers = self.covers(other);
        let covered = other.covers(self);
        proof {
            if covers && covered {
                assert(self@.direct_addresses =~= other@.direct_addresses);
            }
        }
        same_url && covers && covered
    }

    /// The relay URL, if there is one.
    pub fn relay_url(&self) -> (url: Option<&String>)
        ensures
            url.is_some() == self@.relay_url.is_some(),
            url.is_some() ==> url.unwrap()@ == self@.relay_url.unwrap(),
    {
        self.relay_url.as_ref()
    }

    /// The direct addresses, in the order in which they were added.
    pub fn direct_addresses(&self) -> (addrs: &Vec<DirectAddr>)
        ensures
            addrs@ == self.address_list(),
            addrs@.to_set() == self@.direct_addresses,
    {
        &self.direct_addresses
    }

    /// Whether the information holds neither a relay URL nor a direct address.
    pub fn is_empty(&self) -> (empty: bool)
        ensures
            empty == self@.is_empty(),
    {
        let empty = self.relay_url.is_none() && self.direct_addresses.len() == 0;
        proof {
            if self.direct_addresses@.len() == 0 {
                assert(self.direct_addresses@.to_set() =~= Set::<DirectAddr>::empty());
            } else {
                assert(self.direct_addresses@.to_set().contains(self.direct_addresses@[0]));
            }
        }
        empty
    }
}

impl PartialEq for AddrInfo {
    fn eq(&self, other: &AddrInfo) -> (same: bool) {
        self.same_as(other)
    }
}

impl vstd::std_specs::cmp::PartialEqSpecImpl for AddrInfo {
    open spec fn obeys_eq_spec() -> bool {
        true
    }

    open spec fn eq_spec(&self, other: &AddrInfo) -> bool {
        self@ == other@
    }
}

/// A node together with the address information to reach it.
#[derive(Clone, Debug, PartialEq)]
pub struct NodeAddr {
    /// The node.
    pub node_id: NodeId,
    /// Where the node can be reached.
    pub info: AddrInfo,
}

} // verus!
