//! A request asking the kernel to reserve an SPI for a state.

use vstd::prelude::*;

use crate::addr::{addr_bytes_ok, Address};
use crate::errors::Error;
use crate::extract::{extract_single_sa, sa_single_result};
use crate::message::{AllocSpiMsg, OutboundFrame, RequestMessage, SaInfo, SaModifyMsg,
    NLM_F_REQUEST};
use crate::transport::Handle;
use crate::types::{Mark, XfrmAttr, XfrmId};

verus! {

/// A request to allocate an SPI.  A successful allocation is answered with
/// a state record payload carrying the reserved SPI.
#[derive(Clone, Debug, PartialEq, Eq)]
pub struct StateAllocSpiRequest {
    pub message: AllocSpiMsg,
}

/// The draft with its state record replaced and everything else kept.
pub open spec fn with_info(q: StateAllocSpiRequest, info: SaInfo) -> StateAllocSpiRequest {
    StateAllocSpiRequest { message: AllocSpiMsg { info, ..q.message } }
}

impl StateAllocSpiRequest {
    /// Constructs the draft from source and destination addresses, given
    /// as raw bytes.  Fails before any frame exists when an address cannot
    /// be converted to the kernel form.
    pub fn new(src_addr: Vec<u8>, dst_addr: Vec<u8>) -> (r: Result<StateAllocSpiRequest, Error>)
        ensures
            addr_bytes_ok(src_addr@) && addr_bytes_ok(dst_addr@) ==> (r matches Ok(q) && ({
                &&& q.message.info.is_fresh(src_addr@, dst_addr@)
                &&& q.message.min == 0
                &&& q.message.max == 0
                &&& q.message.attrs@.len() == 0
            })),
            !addr_bytes_ok(src_addr@) ==> r == Err::<StateAllocSpiRequest, Error>(
                Error::InvalidIp(src_addr),
            ),
            addr_bytes_ok(src_addr@) && !addr_bytes_ok(dst_addr@) ==> r == Err::<
                StateAllocSpiRequest,
                Error,
            >(Error::InvalidIp(dst_addr)),
    {
        let dst_family = Address::family_of(&dst_addr);
        let saddr = Address::from_bytes(src_addr)?;
        let daddr = Address::from_bytes(dst_addr)?;
        let mut info = SaInfo::initial();
        info.saddr = saddr;
        info.id.daddr = daddr;
        info.family = dst_family;
        let message = AllocSpiMsg { info, min: 0, max: 0, attrs: Vec::new() };
        Ok(StateAllocSpiRequest { message })
    }

    /// Sets the state's protocol.
    pub fn protocol(self, protocol: u8) -> (r: Self)
        ensures
            r == with_info(
                self,
                (SaInfo {
                    id: (XfrmId { proto: protocol, ..self.message.info.id }),
                    ..self.message.info
                }),
            ),
    {
        let mut q = self;
        q.message.info.id.proto = protocol;
        q
    }

    /// Sets the inclusive range the kernel must pick the SPI from.
    pub fn spi_range(self, spi_min: u32, spi_max: u32) -> (r: Self)
        ensures
            r == (StateAllocSpiRequest {
                message: AllocSpiMsg { min: spi_min, max: spi_max, ..self.message },
            }),
    {
        let mut q = self;
        q.message.min = spi_min;
        q.message.max = spi_max;
        q
    }

    /// Sets the state's mode.
    pub fn mode(self, mode: u8) -> (r: Self)
        ensures
            r == with_info(self, (SaInfo { mode, ..self.message.info })),
    {
        let mut q = self;
        q.message.info.mode = mode;
        q
    }

    /// Appends the mark-and-mask attribute.
    pub fn mark(self, mark: u32, mask: u32) -> (r: Self)
        ensures
            r.message.info == self.message.info,
            r.message.min == self.message.min,
            r.message.max == self.message.max,
            r.message.attrs@ == self.message.attrs@.push(
                XfrmAttr::Mark(Mark { value: mark, mask }),
            ),
    {
        let mut q = self;
        q.message.attrs.push(XfrmAttr::Mark(Mark { value: mark, mask }));
        q
    }

    /// Sets the request id.
    pub fn reqid(self, reqid: u32) -> (r: Self)
        ensures
            r == with_info(self, (SaInfo { reqid, ..self.message.info })),
    {
        let mut q = self;
        q.message.info.reqid = reqid;
        q
    }

    /// Sets the sequence field of the record; the kernel appears to always
    /// hand it back as zero.
    pub fn seq(self, seq: u32) -> (r: Self)
        ensures
            r == with_info(self, (SaInfo { seq, ..self.message.info })),
    {
        let mut q = self;
        q.message.info.seq = seq;
        q
    }

    /// Appends the interface id attribute.
    pub fn ifid(self, ifid: u32) -> (r: Self)
        ensures
            r.message.info == self.message.info,
            r.message.min == self.message.min,
            r.message.max == self.message.max,
            r.message.attrs@ == self.message.attrs@.push(XfrmAttr::IfId(ifid)),
    {
        let mut q = self;
        q.message.attrs.push(XfrmAttr::IfId(ifid));
        q
    }

    /// Finalizes the draft, submits it with the request flag alone, and
    /// takes exactly the first reply frame: a successful allocation is
    /// answered with a state record payload, anything else is the
    /// operation's error, and a sequence that closes without a frame is a
    /// failed request.
    pub fn execute(self, handle: &mut Handle) -> (r: Result<SaModifyMsg, Error>)
        ensures
            !old(handle).accepting ==> r == Err::<SaModifyMsg, Error>(Error::RequestFailed)
                && *final(handle) == *old(handle),
            old(handle).accepting ==> ({
                &&& final(handle).sent@ == old(handle).sent@.push(
                    (OutboundFrame {
                        flags: NLM_F_REQUEST,
                        message: RequestMessage::AllocSpi(self.message),
                    }),
                )
                &&& final(handle).scripts@ == old(handle).scripts_after_request()
                &&& final(handle).accepting
                &&& r == sa_single_result(old(handle).next_script())
            }),
    {
        let frame = OutboundFrame {
            flags: NLM_F_REQUEST,
            message: RequestMessage::AllocSpi(self.message),
        };
        let mut replies = handle.request(frame)?;
        extract_single_sa(&mut replies)
    }

    /// A mutable reference to the underlying message, for fields not
    /// covered by the named configuration calls.
    pub fn message_mut(&mut self) -> (r: &mut AllocSpiMsg)
        ensures
            *r == old(self).message,
            *final(self) == (StateAllocSpiRequest { message: *final(r) }),
    {
        &mut self.message
    }
}

} // verus!
