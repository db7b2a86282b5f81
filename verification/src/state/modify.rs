//! A request to add or update a state.

use vstd::prelude::*;

use crate::addr::{addr_bytes_ok, Address};
use crate::errors::Error;
use crate::extract::{ack_result, extract_ack_stream};
use crate::message::{OutboundFrame, RequestMessage, SaInfo, SaModifyMsg, NLM_F_ACK,
    NLM_F_REQUEST};
use crate::transport::Handle;
use crate::types::{Mark, XfrmAttr, XfrmId};

verus! {

/// A request to add or update a state.  Pure data until executed; fluent
/// configuration calls mutate the draft and hand it back.
#[derive(Clone, Debug, PartialEq, Eq)]
pub struct StateModifyRequest {
    pub message: SaModifyMsg,
    /// True for an update operation, false for an add.
    pub update: bool,
}

/// The draft with its state record replaced and everything else kept.
pub open spec fn with_info(q: StateModifyRequest, info: SaInfo) -> StateModifyRequest {
    StateModifyRequest { message: SaModifyMsg { info, ..q.message }, ..q }
}

impl StateModifyRequest {
    /// True when `f` is the frame this draft finalizes to under the given
    /// header flags: the operation kind follows the update flag and the
    /// message is carried unchanged.
    pub open spec fn is_finalized_frame(&self, f: OutboundFrame, flags: u16) -> bool {
        &&& f.flags == flags
        &&& if self.update {
            f.message == RequestMessage::UpdateSa(self.message)
        } else {
            f.message == RequestMessage::AddSa(self.message)
        }
    }

    /// Constructs the draft from source and destination addresses, given
    /// as raw bytes.  Fails before any frame exists when an address cannot
    /// be converted to the kernel form.
    pub fn new(update: bool, src_addr: Vec<u8>, dst_addr: Vec<u8>) -> (r: Result<
        StateModifyRequest,
        Error,
    >)
        ensures
            addr_bytes_ok(src_addr@) && addr_bytes_ok(dst_addr@) ==> (r matches Ok(q) && ({
                &&& q.message.info.is_fresh(src_addr@, dst_addr@)
                &&& q.message.attrs@.len() == 0
                &&& q.update == update
            })),
            !addr_bytes_ok(src_addr@) ==> r == Err::<StateModifyRequest, Error>(
                Error::InvalidIp(src_addr),
            ),
            addr_bytes_ok(src_addr@) && !addr_bytes_ok(dst_addr@) ==> r == Err::<
                StateModifyRequest,
                Error,
            >(Error::InvalidIp(dst_addr)),
    {
        let dst_family = Address::family_of(&dst_addr);
        let saddr = Address::from_bytes(src_addr)?;
        let daddr = Address::from_bytes(dst_addr)?;
        let mut info = SaInfo::initial();
        info.saddr = saddr;
        info.id.daddr = daddr;
        info.family = dst_family;
        let message = SaModifyMsg { info, attrs: Vec::new() };
        Ok(StateModifyRequest { message, update })
    }

    /// Sets the state's SPI.
    pub fn spi(self, spi: u32) -> (r: Self)
        ensures
            r == with_info(
                self,
                (SaInfo { id: (XfrmId { spi, ..self.message.info.id }), ..self.message.info }),
            ),
    {
        let mut q = self;
        q.message.info.id.spi = spi;
        q
    }

    /// Sets the state's protocol.
    pub fn protocol(self, protocol: u8) -> (r: Self)
        ensures
            r == with_info(
                self,
                (SaInfo {
                    id: (XfrmId { proto: protocol, ..self.message.info.id }),
                    ..self.message.info
                }),
            ),
    {
        let mut q = self;
        q.message.info.id.proto = protocol;
        q
    }

    /// Sets the state's mode.
    pub fn mode(self, mode: u8) -> (r: Self)
        ensures
            r == with_info(self, (SaInfo { mode, ..self.message.info })),
    {
        let mut q = self;
        q.message.info.mode = mode;
        q
    }

    /// Sets the request id.
    pub fn reqid(self, reqid: u32) -> (r: Self)
        ensures
            r == with_info(self, (SaInfo { reqid, ..self.message.info })),
    {
        let mut q = self;
        q.message.info.reqid = reqid;
        q
    }

    /// Sets the replay window size.
    pub fn replay_window(self, replay_window: u8) -> (r: Self)
        ensures
            r == with_info(self, (SaInfo { replay_window, ..self.message.info })),
    {
        let mut q = self;
        q.message.info.replay_window = replay_window;
        q
    }

    /// Sets the state's flags.
    pub fn flags(self, flags: u8) -> (r: Self)
        ensures
            r == with_info(self, (SaInfo { flags, ..self.message.info })),
    {
        let mut q = self;
        q.message.info.flags = flags;
        q
    }

    /// Appends the mark-and-mask attribute.
    pub fn mark(self, mark: u32, mask: u32) -> (r: Self)
        ensures
            r.message.info == self.message.info,
            r.update == self.update,
            r.message.attrs@ == self.message.attrs@.push(
                XfrmAttr::Mark(Mark { value: mark, mask }),
            ),
    {
        let mut q = self;
        q.message.attrs.push(XfrmAttr::Mark(Mark { value: mark, mask }));
        q
    }

    /// Finalizes the draft into the one outbound frame it submits: picks
    /// the add or update operation by the update flag and sets the
    /// acknowledged-request flags or the request flag alone.  Finalizing
    /// consumes the draft; it is not repeatable.
    pub fn finalize(self, acked: bool) -> (f: OutboundFrame)
        ensures
            self.is_finalized_frame(
                f,
                if acked {
                    NLM_F_REQUEST | NLM_F_ACK
                } else {
                    NLM_F_REQUEST
                },
            ),
    {
        let StateModifyRequest { message, update } = self;
        let msg = if update {
            RequestMessage::UpdateSa(message)
        } else {
            RequestMessage::AddSa(message)
        };
        let flags = if acked {
            NLM_F_REQUEST | NLM_F_ACK
        } else {
            NLM_F_REQUEST
        };
        OutboundFrame { flags, message: msg }
    }

    /// Finalizes the draft, submits it with the acknowledged-request flags,
    /// and interprets the acknowledgement stream: success exactly when no
    /// kernel error or unexpected frame appears before the stream ends.
    pub fn execute(self, handle: &mut Handle) -> (r: Result<(), Error>)
        ensures
            !old(handle).accepting ==> r == Err::<(), Error>(Error::RequestFailed) && *final(handle)
                == *old(handle),
            old(handle).accepting ==> ({
                &&& final(handle).sent@.len() == old(handle).sent@.len() + 1
                &&& forall|i: int|
                    0 <= i < old(handle).sent@.len() ==> final(handle).sent@[i] == old(
                        handle,
                    ).sent@[i]
                &&& self.is_finalized_frame(
                    final(handle).sent@.last(),
                    NLM_F_REQUEST | NLM_F_ACK,
                )
                &&& final(handle).scripts@ == old(handle).scripts_after_request()
                &&& final(handle).accepting
                &&& r == ack_result(old(handle).next_script())
            }),
    {
        let frame = self.finalize(true);
        let mut replies = handle.request(frame)?;
        extract_ack_stream(&mut replies)
    }

    /// Finalizes the draft, submits it with the request flag alone, and
    /// returns as soon as the transport accepts the frame.  No reply is
    /// ever inspected, so no kernel error and no unexpected message can
    /// surface, and nothing confirms that the kernel applied the change.
    pub fn execute_noack(self, handle: &mut Handle) -> (r: Result<(), Error>)
        ensures
            !old(handle).accepting ==> r == Err::<(), Error>(Error::RequestFailed) && *final(handle)
                == *old(handle),
            old(handle).accepting ==> ({
                &&& final(handle).sent@.len() == old(handle).sent@.len() + 1
                &&& forall|i: int|
                    0 <= i < old(handle).sent@.len() ==> final(handle).sent@[i] == old(
                        handle,
                    ).sent@[i]
                &&& self.is_finalized_frame(final(handle).sent@.last(), NLM_F_REQUEST)
                &&& final(handle).scripts@ == old(handle).scripts_after_request()
                &&& final(handle).accepting
                &&& r == Ok::<(), Error>(())
            }),
    {
        let frame = self.finalize(false);
        let _replies = handle.request(frame)?;
        Ok(())
    }

    /// A mutable reference to the underlying message, for fields not
    /// covered by the named configuration calls.
    pub fn message_mut(&mut self) -> (r: &mut SaModifyMsg)
        ensures
            *r == old(self).message,
            *final(self) == (StateModifyRequest {
                message: *final(r),
                update: old(self).update,
            }),
    {
        &mut self.message
    }
}

} // verus!
