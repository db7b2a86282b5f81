//! A request to read state-database statistics.

use vstd::prelude::*;

use crate::errors::Error;
use crate::extract::{extract_single, single_result, PayloadKind, ReplyPayload};
use crate::message::{OutboundFrame, RequestMessage, SadGetMsg, SadInfoMsg, NLM_F_REQUEST};
use crate::transport::Handle;
use vstd::pervasive::unreached;

verus! {

/// What a state-database statistics query answers with, given the reply
/// frames of the request: the decoded statistics payload, the kernel's
/// error, an unexpected frame carried whole, or a failed request when no
/// frame arrived.
pub open spec fn sad_info_result(frames: Seq<crate::reply::ReplyFrame>) -> Result<
    SadInfoMsg,
    Error,
> {
    match single_result(frames, PayloadKind::SadInfo) {
        Ok(p) => match p {
            ReplyPayload::SadInfo(m) => Ok(m),
            _ => arbitrary(),
        },
        Err(e) => Err(e),
    }
}

/// A request to read state-database statistics.
#[derive(Clone, Debug, PartialEq, Eq)]
pub struct StateGetSadInfoRequest {
    pub message: SadGetMsg,
}

impl StateGetSadInfoRequest {
    /// Constructs the query; the flags field asks for everything.
    pub fn new() -> (r: StateGetSadInfoRequest)
        ensures
            r.message.flags == u32::MAX,
    {
        StateGetSadInfoRequest { message: SadGetMsg { flags: u32::MAX } }
    }

    /// Finalizes the draft, submits it with the request flag alone — a
    /// single-payload read asks for no acknowledgement — and takes exactly
    /// the first reply frame: the statistics payload decodes, anything
    /// else is the operation's error, and a sequence that closes without a
    /// frame is a failed request.
    pub fn execute(self, handle: &mut Handle) -> (r: Result<SadInfoMsg, Error>)
        ensures
            !old(handle).accepting ==> r == Err::<SadInfoMsg, Error>(Error::RequestFailed)
                && *final(handle) == *old(handle),
            old(handle).accepting ==> ({
                &&& final(handle).sent@ == old(handle).sent@.push(
                    (OutboundFrame {
                        flags: NLM_F_REQUEST,
                        message: RequestMessage::GetSadInfo(self.message),
                    }),
                )
                &&& final(handle).scripts@ == old(handle).scripts_after_request()
                &&& final(handle).accepting
                &&& r == sad_info_result(old(handle).next_script())
            }),
    {
        let frame = OutboundFrame {
            flags: NLM_F_REQUEST,
            message: RequestMessage::GetSadInfo(self.message),
        };
        let mut replies = handle.request(frame)?;
        match extract_single(&mut replies, PayloadKind::SadInfo) {
            Ok(p) => match p {
                ReplyPayload::SadInfo(m) => Ok(m),
                _ => unreached(),
            },
            Err(e) => Err(e),
        }
    }

    /// A mutable reference to the underlying message, for fields not
    /// covered by the named configuration calls.
    pub fn message_mut(&mut self) -> (r: &mut SadGetMsg)
        ensures
            *r == old(self).message,
            *final(self) == (StateGetSadInfoRequest { message: *final(r) }),
    {
        &mut self.message
    }
}

} // verus!
