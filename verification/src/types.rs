//! Plain building blocks shared by request and reply messages: traffic
//! selectors, lifetime limits, marks, templates, and the attribute unions
//! that a message's attribute list can carry.

use vstd::prelude::*;

use crate::addr::{zero16, Address};

verus! {

/// A 32-bit mark and mask pair attached to policies and states.
#[derive(Clone, Copy, Debug, PartialEq, Eq, Structural)]
pub struct Mark {
    pub value: u32,
    pub mask: u32,
}

/// A hash threshold: prefix bit widths for the local and remote side.
#[derive(Clone, Copy, Debug, PartialEq, Eq, Structural)]
pub struct SpdHThresh {
    pub lbits: u8,
    pub rbits: u8,
}

/// Soft and hard lifetime limits in seconds, bytes and packets.  Zero means
/// that the limit is left unset.
#[derive(Clone, Copy, Debug, PartialEq, Eq, Structural)]
pub struct LifetimeConfig {
    pub soft_byte_limit: u64,
    pub hard_byte_limit: u64,
    pub soft_packet_limit: u64,
    pub hard_packet_limit: u64,
    pub soft_add_expires_seconds: u64,
    pub hard_add_expires_seconds: u64,
    pub soft_use_expires_seconds: u64,
    pub hard_use_expires_seconds: u64,
}

impl LifetimeConfig {
    /// Every limit left unset.
    pub open spec fn is_unset(&self) -> bool {
        &&& self.soft_byte_limit == 0
        &&& self.hard_byte_limit == 0
        &&& self.soft_packet_limit == 0
        &&& self.hard_packet_limit == 0
        &&& self.soft_add_expires_seconds == 0
        &&& self.hard_add_expires_seconds == 0
        &&& self.soft_use_expires_seconds == 0
        &&& self.hard_use_expires_seconds == 0
    }

    /// A configuration with every limit unset.
    pub fn unset() -> (r: LifetimeConfig)
        ensures
            r.is_unset(),
    {
        LifetimeConfig {
            soft_byte_limit: 0,
            hard_byte_limit: 0,
            soft_packet_limit: 0,
            hard_packet_limit: 0,
            soft_add_expires_seconds: 0,
            hard_add_expires_seconds: 0,
            soft_use_expires_seconds: 0,
            hard_use_expires_seconds: 0,
        }
    }
}

/// A traffic selector: which packets a policy applies to.
#[derive(Clone, Debug, PartialEq, Eq)]
pub struct Selector {
    pub daddr: Address,
    pub saddr: Address,
    pub dport: u16,
    pub dport_mask: u16,
    pub sport: u16,
    pub sport_mask: u16,
    pub family: u16,
    pub prefixlen_d: u8,
    pub prefixlen_s: u8,
    pub proto: u8,
    pub ifindex: i32,
    pub user: u32,
}

impl Selector {
    /// The selector as a fresh message carries it: everything zero.
    pub open spec fn is_initial(&self) -> bool {
        &&& self.daddr.octets@ == zero16()
        &&& self.saddr.octets@ == zero16()
        &&& self.dport == 0
        &&& self.dport_mask == 0
        &&& self.sport == 0
        &&& self.sport_mask == 0
        &&& self.family == 0
        &&& self.prefixlen_d == 0
        &&& self.prefixlen_s == 0
        &&& self.proto == 0
        &&& self.ifindex == 0
        &&& self.user == 0
    }

    /// An all-zero selector.
    pub fn initial() -> (r: Selector)
        ensures
            r.is_initial(),
    {
        Selector {
            daddr: Address::zero(),
            saddr: Address::zero(),
            dport: 0,
            dport_mask: 0,
            sport: 0,
            sport_mask: 0,
            family: 0,
            prefixlen_d: 0,
            prefixlen_s: 0,
            proto: 0,
            ifindex: 0,
            user: 0,
        }
    }

    /// Sets the source side of the selector: address, prefix length, and the
    /// address family both sides share.
    pub fn set_source_prefix(&mut self, addr: Address, prefix_len: u8, family: u16)
        ensures
            *final(self) == (Selector {
                saddr: addr,
                prefixlen_s: prefix_len,
                family: family,
                ..*old(self)
            }),
    {
        self.saddr = addr;
        self.prefixlen_s = prefix_len;
        self.family = family;
    }

    /// Sets the destination side of the selector: address, prefix length,
    /// and the address family both sides share.
    pub fn set_destination_prefix(&mut self, addr: Address, prefix_len: u8, family: u16)
        ensures
            *final(self) == (Selector {
                daddr: addr,
                prefixlen_d: prefix_len,
                family: family,
                ..*old(self)
            }),
    {
        self.daddr = addr;
        self.prefixlen_d = prefix_len;
        self.family = family;
    }
}

/// How a freshly constructed policy draft's selector relates to the raw
/// source and destination inputs: both prefixes converted to the kernel
/// form, the family taken from the destination, everything else zero.
pub open spec fn is_prefixed_selector(
    sel: Selector,
    src: Seq<u8>,
    src_prefix_len: u8,
    dst: Seq<u8>,
    dst_prefix_len: u8,
) -> bool {
    &&& sel.saddr.octets@ == crate::addr::padded16(src)
    &&& sel.prefixlen_s == src_prefix_len
    &&& sel.daddr.octets@ == crate::addr::padded16(dst)
    &&& sel.prefixlen_d == dst_prefix_len
    &&& sel.family == crate::addr::addr_family(dst)
    &&& sel.dport == 0
    &&& sel.dport_mask == 0
    &&& sel.sport == 0
    &&& sel.sport_mask == 0
    &&& sel.proto == 0
    &&& sel.ifindex == 0
    &&& sel.user == 0
}

/// Identity of a security association: destination, SPI and protocol.
#[derive(Clone, Debug, PartialEq, Eq)]
pub struct XfrmId {
    pub daddr: Address,
    pub spi: u32,
    pub proto: u8,
}

impl XfrmId {
    /// The identity as a fresh record carries it: everything zero.
    pub open spec fn is_initial(&self) -> bool {
        &&& self.daddr.octets@ == zero16()
        &&& self.spi == 0
        &&& self.proto == 0
    }

    /// An all-zero identity.
    pub fn initial() -> (r: XfrmId)
        ensures
            r.is_initial(),
    {
        XfrmId { daddr: Address::zero(), spi: 0, proto: 0 }
    }
}

/// One template entry of a policy: which kind of state must protect the
/// selected traffic.
#[derive(Clone, Debug, PartialEq, Eq)]
pub struct UserTemplate {
    pub id: XfrmId,
    pub family: u16,
    pub saddr: Address,
    pub reqid: u32,
    pub mode: u8,
    pub share: u8,
    pub optional: u8,
    pub aalgos: u32,
    pub ealgos: u32,
    pub calgos: u32,
}

/// Source and destination prefixes restricting a state dump.
#[derive(Clone, Debug, PartialEq, Eq)]
pub struct AddressFilter {
    pub saddr: Address,
    pub daddr: Address,
    pub family: u16,
    pub splen: u8,
    pub dplen: u8,
}

/// One attribute of a request message's attribute list.
#[derive(Clone, Debug, PartialEq, Eq)]
pub enum XfrmAttr {
    /// The policy type record, reduced to its type code.
    PolicyType(u8),
    /// An opaque security-context blob.
    SecurityContext(Vec<u8>),
    /// A mark and mask pair.
    Mark(Mark),
    /// An interface id.
    IfId(u32),
    /// The single multi-value template attribute: all template entries of a
    /// policy in addition order.
    Template(Vec<UserTemplate>),
    /// The source address of a state operation.
    SrcAddr(Address),
    /// An address filter restricting a state dump.
    AddressFilter(AddressFilter),
}

/// Policy counts per direction, as the statistics reply carries them.
#[derive(Clone, Copy, Debug, PartialEq, Eq, Structural)]
pub struct SpdStats {
    pub incnt: u32,
    pub outcnt: u32,
    pub fwdcnt: u32,
    pub inscnt: u32,
    pub outscnt: u32,
    pub fwdscnt: u32,
}

/// Hash table occupancy of the policy database.
#[derive(Clone, Copy, Debug, PartialEq, Eq, Structural)]
pub struct SpdHashInfo {
    pub spdhcnt: u32,
    pub spdhmcnt: u32,
}

/// Hash table occupancy of the state database.
#[derive(Clone, Copy, Debug, PartialEq, Eq, Structural)]
pub struct SadHashInfo {
    pub sadhcnt: u32,
    pub sadhmcnt: u32,
}

/// One attribute of a policy-database info message.
#[derive(Clone, Copy, Debug, PartialEq, Eq, Structural)]
pub enum SpdInfoAttr {
    /// Policy counts, in the statistics reply.
    SpdInfo(SpdStats),
    /// Hash table occupancy, in the statistics reply.
    SpdHInfo(SpdHashInfo),
    /// Hash thresholds for the 4-address-family case.
    Ipv4HThresh(SpdHThresh),
    /// Hash thresholds for the 6-address-family case.
    Ipv6HThresh(SpdHThresh),
}

/// One attribute of a state-database info message.
#[derive(Clone, Copy, Debug, PartialEq, Eq, Structural)]
pub enum SadInfoAttr {
    /// Number of states in the database.
    SadCount(u32),
    /// Hash table occupancy, in the statistics reply.
    SadHInfo(SadHashInfo),
}

} // verus!
