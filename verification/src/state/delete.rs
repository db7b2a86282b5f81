//! A request to delete a state, identified by destination address, SPI and
//! protocol.

use vstd::prelude::*;

use crate::addr::{addr_bytes_ok, Address};
use crate::errors::Error;
use crate::extract::{ack_result, extract_ack_stream};
use crate::message::{OutboundFrame, RequestMessage, SaDelGetMsg, SaId, NLM_F_ACK, NLM_F_REQUEST};
use crate::transport::Handle;
use crate::types::{Mark, XfrmAttr};

verus! {

/// A request to delete a state.  Pure data until executed; fluent
/// configuration calls mutate the draft and hand it back.
///
/// Delete and get cannot find the state if the mark's mask was set during
/// the add in a way that does not cover the mark; a full flush may then be
/// needed.
#[derive(Clone, Debug, PartialEq, Eq)]
pub struct StateDeleteRequest {
    pub message: SaDelGetMsg,
}

impl StateDeleteRequest {
    /// Constructs the draft from source and destination addresses, given
    /// as raw bytes.  Fails before any frame exists when an address cannot
    /// be converted to the kernel form.
    pub fn new(src_addr: Vec<u8>, dst_addr: Vec<u8>) -> (r: Result<StateDeleteRequest, Error>)
        ensures
            addr_bytes_ok(src_addr@) && addr_bytes_ok(dst_addr@) ==> (r matches Ok(q)
                && q.message.is_fresh(src_addr@, dst_addr@)),
            !addr_bytes_ok(src_addr@) ==> r == Err::<StateDeleteRequest, Error>(
                Error::InvalidIp(src_addr),
            ),
            addr_bytes_ok(src_addr@) && !addr_bytes_ok(dst_addr@) ==> r == Err::<
                StateDeleteRequest,
                Error,
            >(Error::InvalidIp(dst_addr)),
    {
        let dst_family = Address::family_of(&dst_addr);
        let saddr = Address::from_bytes(src_addr)?;
        let daddr = Address::from_bytes(dst_addr)?;
        let mut attrs: Vec<XfrmAttr> = Vec::new();
        attrs.push(XfrmAttr::SrcAddr(saddr));
        let message = SaDelGetMsg {
            id: SaId { daddr, spi: 0, family: dst_family, proto: 0 },
            attrs,
        };
        Ok(StateDeleteRequest { message })
    }

    /// Sets the state's protocol.
    pub fn protocol(self, protocol: u8) -> (r: Self)
        ensures
            r == (StateDeleteRequest {
                message: SaDelGetMsg {
                    id: SaId { proto: protocol, ..self.message.id },
                    ..self.message
                },
            }),
    {
        let mut q = self;
        q.message.id.proto = protocol;
        q
    }

    /// Sets the state's SPI.
    pub fn spi(self, spi: u32) -> (r: Self)
        ensures
            r == (StateDeleteRequest {
                message: SaDelGetMsg { id: SaId { spi, ..self.message.id }, ..self.message },
            }),
    {
        let mut q = self;
        q.message.id.spi = spi;
        q
    }

    /// Appends the mark-and-mask attribute.
    pub fn mark(self, mark: u32, mask: u32) -> (r: Self)
        ensures
            r.message.id == self.message.id,
            r.message.attrs@ == self.message.attrs@.push(
                XfrmAttr::Mark(Mark { value: mark, mask }),
            ),
    {
        let mut q = self;
        q.message.attrs.push(XfrmAttr::Mark(Mark { value: mark, mask }));
        q
    }

    /// Finalizes the draft, submits it with the acknowledged-request flags,
    /// and interprets the acknowledgement stream: success exactly when no
    /// kernel error or unexpected frame appears before the stream ends.
    pub fn execute(self, handle: &mut Handle) -> (r: Result<(), Error>)
        ensures
            !old(handle).accepting ==> r == Err::<(), Error>(Error::RequestFailed) && *final(handle)
                == *old(handle),
            old(handle).accepting ==> ({
                &&& final(handle).sent@ == old(handle).sent@.push(
                    (OutboundFrame {
                        flags: NLM_F_REQUEST | NLM_F_ACK,
                        message: RequestMessage::DeleteSa(self.message),
                    }),
                )
                &&& final(handle).scripts@ == old(handle).scripts_after_request()
                &&& final(handle).accepting
                &&& r == ack_result(old(handle).next_script())
            }),
    {
        let frame = OutboundFrame {
            flags: NLM_F_REQUEST | NLM_F_ACK,
            message: RequestMessage::DeleteSa(self.message),
        };
        let mut replies = handle.request(frame)?;
        extract_ack_stream(&mut replies)
    }

    /// Finalizes the draft, submits it with the request flag alone, and
    /// returns as soon as the transport accepts the frame.  No reply is
    /// ever inspected, so no kernel error and no unexpected message can
    /// surface, and nothing confirms that the kernel applied the change.
    pub fn execute_noack(self, handle: &mut Handle) -> (r: Result<(), Error>)
        ensures
            !old(handle).accepting ==> r == Err::<(), Error>(Error::RequestFailed) && *final(handle)
                == *old(handle),
            old(handle).accepting ==> ({
                &&& final(handle).sent@ == old(handle).sent@.push(
                    (OutboundFrame {
                        flags: NLM_F_REQUEST,
                        message: RequestMessage::DeleteSa(self.message),
                    }),
                )
                &&& final(handle).scripts@ == old(handle).scripts_after_request()
                &&& final(handle).accepting
                &&& r == Ok::<(), Error>(())
            }),
    {
        let frame = OutboundFrame {
            flags: NLM_F_REQUEST,
            message: RequestMessage::DeleteSa(self.message),
        };
        let _replies = handle.request(frame)?;
        Ok(())
    }

    /// A mutable reference to the underlying message, for fields not
    /// covered by the named configuration calls.
    pub fn message_mut(&mut self) -> (r: &mut SaDelGetMsg)
        ensures
            *r == old(self).message,
            *final(self) == (StateDeleteRequest { message: *final(r) }),
    {
        &mut self.message
    }
}

} // verus!
