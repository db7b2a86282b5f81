//! Requests to get one state, and to dump all states.

use vstd::prelude::*;

use crate::addr::{addr_bytes_ok, Address};
use crate::errors::Error;
use crate::extract::{extract_single_sa, sa_single_result};
use crate::message::{OutboundFrame, RequestMessage, SaDelGetMsg, SaGetDumpMsg, SaId, SaModifyMsg,
    NLM_F_DUMP, NLM_F_REQUEST};
use crate::reply::ReplySource;
use crate::transport::Handle;
use crate::types::{AddressFilter, Mark, XfrmAttr};

verus! {

/// A request to get one state, identified by destination address, SPI and
/// protocol.  The kernel answers with a state record payload.
///
/// Delete and get cannot find the state if the mark's mask was set during
/// the add in a way that does not cover the mark; a full flush may then be
/// needed.
#[derive(Clone, Debug, PartialEq, Eq)]
pub struct StateGetRequest {
    pub message: SaDelGetMsg,
}

impl StateGetRequest {
    /// Constructs the draft from source and destination addresses, given
    /// as raw bytes.  Fails before any frame exists when an address cannot
    /// be converted to the kernel form.
    pub fn new(src_addr: Vec<u8>, dst_addr: Vec<u8>) -> (r: Result<StateGetRequest, Error>)
        ensures
            addr_bytes_ok(src_addr@) && addr_bytes_ok(dst_addr@) ==> (r matches Ok(q)
                && q.message.is_fresh(src_addr@, dst_addr@)),
            !addr_bytes_ok(src_addr@) ==> r == Err::<StateGetRequest, Error>(
                Error::InvalidIp(src_addr),
            ),
            addr_bytes_ok(src_addr@) && !addr_bytes_ok(dst_addr@) ==> r == Err::<
                StateGetRequest,
                Error,
            >(Error::InvalidIp(dst_addr)),
    {
        let dst_family = Address::family_of(&dst_addr);
        let saddr = Address::from_bytes(src_addr)?;
        let daddr = Address::from_bytes(dst_addr)?;
        let mut attrs: Vec<XfrmAttr> = Vec::new();
        attrs.push(XfrmAttr::SrcAddr(saddr));
        let message = SaDelGetMsg {
            id: SaId { daddr, spi: 0, family: dst_family, proto: 0 },
            attrs,
        };
        Ok(StateGetRequest { message })
    }

    /// Sets the state's protocol.
    pub fn protocol(self, protocol: u8) -> (r: Self)
        ensures
            r == (StateGetRequest {
                message: SaDelGetMsg {
                    id: SaId { proto: protocol, ..self.message.id },
                    ..self.message
                },
            }),
    {
        let mut q = self;
        q.message.id.proto = protocol;
        q
    }

    /// Sets the state's SPI.
    pub fn spi(self, spi: u32) -> (r: Self)
        ensures
            r == (StateGetRequest {
                message: SaDelGetMsg { id: SaId { spi, ..self.message.id }, ..self.message },
            }),
    {
        let mut q = self;
        q.message.id.spi = spi;
        q
    }

    /// Appends the mark-and-mask attribute.
    pub fn mark(self, mark: u32, mask: u32) -> (r: Self)
        ensures
            r.message.id == self.message.id,
            r.message.attrs@ == self.message.attrs@.push(
                XfrmAttr::Mark(Mark { value: mark, mask }),
            ),
    {
        let mut q = self;
        q.message.attrs.push(XfrmAttr::Mark(Mark { value: mark, mask }));
        q
    }

    /// Finalizes the draft, submits it with the request flag alone, and
    /// takes exactly the first reply frame: the state payload decodes,
    /// anything else is the operation's error, and a sequence that closes
    /// without a frame is a failed request.
    pub fn execute(self, handle: &mut Handle) -> (r: Result<SaModifyMsg, Error>)
        ensures
            !old(handle).accepting ==> r == Err::<SaModifyMsg, Error>(Error::RequestFailed)
                && *final(handle) == *old(handle),
            old(handle).accepting ==> ({
                &&& final(handle).sent@ == old(handle).sent@.push(
                    (OutboundFrame {
                        flags: NLM_F_REQUEST,
                        message: RequestMessage::GetSa(self.message),
                    }),
                )
                &&& final(handle).scripts@ == old(handle).scripts_after_request()
                &&& final(handle).accepting
                &&& r == sa_single_result(old(handle).next_script())
            }),
    {
        let frame = OutboundFrame {
            flags: NLM_F_REQUEST,
            message: RequestMessage::GetSa(self.message),
        };
        let mut replies = handle.request(frame)?;
        extract_single_sa(&mut replies)
    }

    /// A mutable reference to the underlying message, for fields not
    /// covered by the named configuration calls.
    pub fn message_mut(&mut self) -> (r: &mut SaDelGetMsg)
        ensures
            *r == old(self).message,
            *final(self) == (StateGetRequest { message: *final(r) }),
    {
        &mut self.message
    }
}

/// A request to dump all states.  Executing hands back the reply sequence
/// itself: the dump is consumer paced, each frame judged independently by
/// the single-payload matching rule, and it is not restartable.
#[derive(Clone, Debug, PartialEq, Eq)]
pub struct StateGetDumpRequest {
    pub message: SaGetDumpMsg,
}

impl StateGetDumpRequest {
    /// Constructs the dump draft with no filter: every state matches.
    pub fn new() -> (r: StateGetDumpRequest)
        ensures
            r.message.attrs@.len() == 0,
    {
        StateGetDumpRequest { message: SaGetDumpMsg { attrs: Vec::new() } }
    }

    /// Appends an address filter restricting the dump to states matching
    /// the given source and destination prefixes.  Fails when an address
    /// cannot be converted to the kernel form.
    pub fn address_filter(
        self,
        src_addr: Vec<u8>,
        src_prefix_len: u8,
        dst_addr: Vec<u8>,
        dst_prefix_len: u8,
    ) -> (r: Result<Self, Error>)
        ensures
            addr_bytes_ok(src_addr@) && addr_bytes_ok(dst_addr@) ==> (r matches Ok(q) && ({
                &&& q.message.attrs@.len() == self.message.attrs@.len() + 1
                &&& forall|i: int|
                    0 <= i < self.message.attrs@.len() ==> q.message.attrs@[i]
                        == self.message.attrs@[i]
                &&& q.message.attrs@.last() matches XfrmAttr::AddressFilter(f) && ({
                    &&& f.saddr.octets@ == crate::addr::padded16(src_addr@)
                    &&& f.daddr.octets@ == crate::addr::padded16(dst_addr@)
                    &&& f.family == crate::addr::addr_family(dst_addr@)
                    &&& f.splen == src_prefix_len
                    &&& f.dplen == dst_prefix_len
                })
            })),
            !addr_bytes_ok(src_addr@) ==> (r matches Err(e) && e matches Error::InvalidAddress(
                b,
                p,
            ) && b == src_addr && p@ == seq![src_prefix_len]),
            addr_bytes_ok(src_addr@) && !addr_bytes_ok(dst_addr@) ==> (r matches Err(e)
                && e matches Error::InvalidAddress(b, p) && b == dst_addr && p@ == seq![
                dst_prefix_len,
            ]),
    {
        let dst_family = Address::family_of(&dst_addr);
        let saddr = Address::from_bytes_prefixed(src_addr, src_prefix_len)?;
        let daddr = Address::from_bytes_prefixed(dst_addr, dst_prefix_len)?;
        let filter = AddressFilter {
            saddr,
            daddr,
            family: dst_family,
            splen: src_prefix_len,
            dplen: dst_prefix_len,
        };
        let mut q = self;
        q.message.attrs.push(XfrmAttr::AddressFilter(filter));
        Ok(q)
    }

    /// Finalizes the draft, submits it with the request and dump flags —
    /// never the acknowledgement flag — and hands back the reply sequence
    /// for consumer-paced extraction.
    pub fn execute(self, handle: &mut Handle) -> (r: Result<ReplySource, Error>)
        ensures
            !old(handle).accepting ==> r == Err::<ReplySource, Error>(Error::RequestFailed)
                && *final(handle) == *old(handle),
            old(handle).accepting ==> ({
                &&& final(handle).sent@ == old(handle).sent@.push(
                    (OutboundFrame {
                        flags: NLM_F_REQUEST | NLM_F_DUMP,
                        message: RequestMessage::GetDumpSa(self.message),
                    }),
                )
                &&& final(handle).scripts@ == old(handle).scripts_after_request()
                &&& final(handle).accepting
                &&& r matches Ok(replies) && replies@ == old(handle).next_script()
            }),
    {
        let frame = OutboundFrame {
            flags: NLM_F_REQUEST | NLM_F_DUMP,
            message: RequestMessage::GetDumpSa(self.message),
        };
        handle.request(frame)
    }

    /// A mutable reference to the underlying message, for fields not
    /// covered by the named configuration calls.
    pub fn message_mut(&mut self) -> (r: &mut SaGetDumpMsg)
        ensures
            *r == old(self).message,
            *final(self) == (StateGetDumpRequest { message: *final(r) }),
    {
        &mut self.message
    }
}

} // verus!
