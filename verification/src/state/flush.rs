//! A request to flush all states, optionally restricted to one protocol.

use vstd::prelude::*;

use crate::errors::Error;
use crate::extract::{ack_result, extract_ack_stream};
use crate::message::{OutboundFrame, RequestMessage, SaFlushMsg, NLM_F_ACK, NLM_F_REQUEST};
use crate::transport::Handle;

verus! {

/// A request to flush all states.
#[derive(Clone, Copy, Debug, PartialEq, Eq, Structural)]
pub struct StateFlushRequest {
    pub message: SaFlushMsg,
}

impl StateFlushRequest {
    /// Constructs the draft; protocol zero flushes every state.
    pub fn new() -> (r: StateFlushRequest)
        ensures
            r.message.proto == 0,
    {
        StateFlushRequest { message: SaFlushMsg { proto: 0 } }
    }

    /// Restricts the flush to one protocol.
    pub fn protocol(self, protocol: u8) -> (r: Self)
        ensures
            r.message.proto == protocol,
    {
        let mut q = self;
        q.message.proto = protocol;
        q
    }

    /// Finalizes the draft, submits it with the acknowledged-request flags,
    /// and interprets the acknowledgement stream: success exactly when no
    /// kernel error or unexpected frame appears before the stream ends.
    pub fn execute(self, handle: &mut Handle) -> (r: Result<(), Error>)
        ensures
            !old(handle).accepting ==> r == Err::<(), Error>(Error::RequestFailed) && *final(handle)
                == *old(handle),
            old(handle).accepting ==> ({
                &&& final(handle).sent@ == old(handle).sent@.push(
                    (OutboundFrame {
                        flags: NLM_F_REQUEST | NLM_F_ACK,
                        message: RequestMessage::FlushSa(self.message),
                    }),
                )
                &&& final(handle).scripts@ == old(handle).scripts_after_request()
                &&& final(handle).accepting
                &&& r == ack_result(old(handle).next_script())
            }),
    {
        let frame = OutboundFrame {
            flags: NLM_F_REQUEST | NLM_F_ACK,
            message: RequestMessage::FlushSa(self.message),
        };
        let mut replies = handle.request(frame)?;
        extract_ack_stream(&mut replies)
    }

    /// Finalizes the draft, submits it with the request flag alone, and
    /// returns as soon as the transport accepts the frame.  No reply is
    /// ever inspected, so no kernel error and no unexpected message can
    /// surface, and nothing confirms that the kernel applied the change.
    pub fn execute_noack(self, handle: &mut Handle) -> (r: Result<(), Error>)
        ensures
            !old(handle).accepting ==> r == Err::<(), Error>(Error::RequestFailed) && *final(handle)
                == *old(handle),
            old(handle).accepting ==> ({
                &&& final(handle).sent@ == old(handle).sent@.push(
                    (OutboundFrame {
                        flags: NLM_F_REQUEST,
                        message: RequestMessage::FlushSa(self.message),
                    }),
                )
                &&& final(handle).scripts@ == old(handle).scripts_after_request()
                &&& final(handle).accepting
                &&& r == Ok::<(), Error>(())
            }),
    {
        let frame = OutboundFrame {
            flags: NLM_F_REQUEST,
            message: RequestMessage::FlushSa(self.message),
        };
        let _replies = handle.request(frame)?;
        Ok(())
    }

    /// A mutable reference to the underlying message, for fields not
    /// covered by the named configuration calls.
    pub fn message_mut(&mut self) -> (r: &mut SaFlushMsg)
        ensures
            *r == old(self).message,
            *final(self) == (StateFlushRequest { message: *final(r) }),
    {
        &mut self.message
    }
}

} // verus!
