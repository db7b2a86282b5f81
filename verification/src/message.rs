//! Request message bodies, the tagged union over operation kinds, and the
//! finalized outbound frame with its header flags.

use vstd::prelude::*;

use crate::addr::zero16;
use crate::types::{LifetimeConfig, SadInfoAttr, Selector, SpdInfoAttr, XfrmAttr, XfrmId};
use crate::addr::Address;

verus! {

/// Header flag: the frame is a request.  Set on every outbound frame.
pub const NLM_F_REQUEST: u16 = 1;

/// Header flag: the kernel must acknowledge the request.
pub const NLM_F_ACK: u16 = 4;

/// Header flag: the request asks for a dump of all matching records.
pub const NLM_F_DUMP: u16 = 0x300;

/// Body of a policy add or update: the policy record plus attributes.
#[derive(Clone, Debug, PartialEq, Eq)]
pub struct PolicyInfo {
    pub selector: Selector,
    pub lifetime_cfg: LifetimeConfig,
    pub priority: u32,
    pub index: u32,
    pub direction: u8,
    pub action: u8,
    pub flags: u8,
    pub share: u8,
}

impl PolicyInfo {
    /// The record as a fresh draft carries it: everything zero.
    pub open spec fn is_initial(&self) -> bool {
        &&& self.selector.is_initial()
        &&& self.lifetime_cfg.is_unset()
        &&& self.priority == 0
        &&& self.index == 0
        &&& self.direction == 0
        &&& self.action == 0
        &&& self.flags == 0
        &&& self.share == 0
    }

    /// An all-zero policy record.
    pub fn initial() -> (r: PolicyInfo)
        ensures
            r.is_initial(),
    {
        PolicyInfo {
            selector: Selector::initial(),
            lifetime_cfg: LifetimeConfig::unset(),
            priority: 0,
            index: 0,
            direction: 0,
            action: 0,
            flags: 0,
            share: 0,
        }
    }
}

/// Message of a policy add or update request.
#[derive(Clone, Debug, PartialEq, Eq)]
pub struct PolicyModifyMsg {
    pub info: PolicyInfo,
    pub attrs: Vec<XfrmAttr>,
}

/// Identity of a policy: selector, index and direction.
#[derive(Clone, Debug, PartialEq, Eq)]
pub struct PolicyId {
    pub selector: Selector,
    pub index: u32,
    pub direction: u8,
}

impl PolicyId {
    /// The identity as a fresh draft carries it: everything zero.
    pub open spec fn is_initial(&self) -> bool {
        &&& self.selector.is_initial()
        &&& self.index == 0
        &&& self.direction == 0
    }

    /// An all-zero policy identity.
    pub fn initial() -> (r: PolicyId)
        ensures
            r.is_initial(),
    {
        PolicyId { selector: Selector::initial(), index: 0, direction: 0 }
    }
}

/// Message of a policy delete or get request.
#[derive(Clone, Debug, PartialEq, Eq)]
pub struct PolicyDelGetMsg {
    pub id: PolicyId,
    pub attrs: Vec<XfrmAttr>,
}

/// Message of a policy-database statistics query.
#[derive(Clone, Copy, Debug, PartialEq, Eq, Structural)]
pub struct SpdGetMsg {
    pub flags: u32,
}

/// Message carrying policy-database info: sent to set thresholds, received
/// as the statistics reply.
#[derive(Clone, Debug, PartialEq, Eq)]
pub struct SpdNewMsg {
    pub flags: u32,
    pub attrs: Vec<SpdInfoAttr>,
}

/// Message of a state-database statistics query.
#[derive(Clone, Copy, Debug, PartialEq, Eq, Structural)]
pub struct SadGetMsg {
    pub flags: u32,
}

/// Message carrying state-database info, received as the statistics reply.
#[derive(Clone, Debug, PartialEq, Eq)]
pub struct SadInfoMsg {
    pub flags: u32,
    pub attrs: Vec<SadInfoAttr>,
}

/// Identity of a state as requests carry it: destination address, SPI,
/// address family and protocol.
#[derive(Clone, Debug, PartialEq, Eq)]
pub struct SaId {
    pub daddr: Address,
    pub spi: u32,
    pub family: u16,
    pub proto: u8,
}

impl SaId {
    /// The identity as a fresh draft carries it: everything zero.
    pub open spec fn is_initial(&self) -> bool {
        &&& self.daddr.octets@ == zero16()
        &&& self.spi == 0
        &&& self.family == 0
        &&& self.proto == 0
    }

    /// An all-zero state identity.
    pub fn initial() -> (r: SaId)
        ensures
            r.is_initial(),
    {
        SaId { daddr: Address::zero(), spi: 0, family: 0, proto: 0 }
    }
}

/// The full state record of an add or update request, and of the state
/// payload the kernel sends back.
#[derive(Clone, Debug, PartialEq, Eq)]
pub struct SaInfo {
    pub id: XfrmId,
    pub saddr: Address,
    pub lifetime_cfg: LifetimeConfig,
    pub family: u16,
    pub mode: u8,
    pub replay_window: u8,
    pub flags: u8,
    pub reqid: u32,
    pub seq: u32,
}

impl SaInfo {
    /// The record as a fresh draft carries it: everything zero.
    pub open spec fn is_initial(&self) -> bool {
        &&& self.id.is_initial()
        &&& self.saddr.octets@ == zero16()
        &&& self.lifetime_cfg.is_unset()
        &&& self.family == 0
        &&& self.mode == 0
        &&& self.replay_window == 0
        &&& self.flags == 0
        &&& self.reqid == 0
        &&& self.seq == 0
    }

    /// An all-zero state record.
    pub fn initial() -> (r: SaInfo)
        ensures
            r.is_initial(),
    {
        SaInfo {
            id: XfrmId::initial(),
            saddr: Address::zero(),
            lifetime_cfg: LifetimeConfig::unset(),
            family: 0,
            mode: 0,
            replay_window: 0,
            flags: 0,
            reqid: 0,
            seq: 0,
        }
    }

    /// How a freshly constructed state draft's record relates to the raw
    /// source and destination inputs: both addresses converted to the
    /// kernel form, the family taken from the destination, everything else
    /// zero.
    pub open spec fn is_fresh(&self, src: Seq<u8>, dst: Seq<u8>) -> bool {
        &&& self.saddr.octets@ == crate::addr::padded16(src)
        &&& self.id.daddr.octets@ == crate::addr::padded16(dst)
        &&& self.family == crate::addr::addr_family(dst)
        &&& self.id.spi == 0
        &&& self.id.proto == 0
        &&& self.lifetime_cfg.is_unset()
        &&& self.mode == 0
        &&& self.replay_window == 0
        &&& self.flags == 0
        &&& self.reqid == 0
        &&& self.seq == 0
    }
}

/// Message of a state add or update request, and payload of the state reply
/// the kernel sends for get, dump and SPI allocation.
#[derive(Clone, Debug, PartialEq, Eq)]
pub struct SaModifyMsg {
    pub info: SaInfo,
    pub attrs: Vec<XfrmAttr>,
}

/// Message of a state delete or get request.
#[derive(Clone, Debug, PartialEq, Eq)]
pub struct SaDelGetMsg {
    pub id: SaId,
    pub attrs: Vec<XfrmAttr>,
}

impl SaDelGetMsg {
    /// How a freshly constructed delete or get draft relates to the raw
    /// source and destination inputs: the destination in the identity with
    /// its family, the source as the one attribute, everything else zero.
    pub open spec fn is_fresh(&self, src: Seq<u8>, dst: Seq<u8>) -> bool {
        &&& self.id.daddr.octets@ == crate::addr::padded16(dst)
        &&& self.id.family == crate::addr::addr_family(dst)
        &&& self.id.spi == 0
        &&& self.id.proto == 0
        &&& self.attrs@.len() == 1
        &&& self.attrs@[0] matches XfrmAttr::SrcAddr(a) && a.octets@ == crate::addr::padded16(src)
    }
}

/// Message of an SPI allocation request: the state record to reserve an SPI
/// for, and the inclusive range to pick from.
#[derive(Clone, Debug, PartialEq, Eq)]
pub struct AllocSpiMsg {
    pub info: SaInfo,
    pub min: u32,
    pub max: u32,
    pub attrs: Vec<XfrmAttr>,
}

/// Message of a state dump request.
#[derive(Clone, Debug, PartialEq, Eq)]
pub struct SaGetDumpMsg {
    pub attrs: Vec<XfrmAttr>,
}

/// Message of a state flush request.
#[derive(Clone, Copy, Debug, PartialEq, Eq, Structural)]
pub struct SaFlushMsg {
    pub proto: u8,
}

/// The tagged union over operation kinds: one variant per outbound protocol
/// message this layer can send.
#[derive(Clone, Debug, PartialEq, Eq)]
pub enum RequestMessage {
    AddPolicy(PolicyModifyMsg),
    UpdatePolicy(PolicyModifyMsg),
    DeletePolicy(PolicyDelGetMsg),
    GetSpdInfo(SpdGetMsg),
    SetSpdInfo(SpdNewMsg),
    AddSa(SaModifyMsg),
    UpdateSa(SaModifyMsg),
    DeleteSa(SaDelGetMsg),
    GetSa(SaDelGetMsg),
    GetDumpSa(SaGetDumpMsg),
    AllocSpi(AllocSpiMsg),
    GetSadInfo(SadGetMsg),
    FlushSa(SaFlushMsg),
}

/// A finalized frame: header flags plus the operation message.  Exactly one
/// outbound frame is produced per executed draft.
#[derive(Clone, Debug, PartialEq, Eq)]
pub struct OutboundFrame {
    pub flags: u16,
    pub message: RequestMessage,
}

} // verus!
