//! Requests for policy-database statistics: reading them, and setting the
//! hash thresholds.
//!
//! Threshold settings are accumulated in a private list beside the message
//! and merged into the finalized frame's attribute list; an out-of-range
//! bit width is silently dropped from the draft rather than raising an
//! error, mirroring the kernel's acceptance rule.

use vstd::prelude::*;

use crate::errors::Error;
use crate::extract::{extract_single, single_result, PayloadKind, ReplyPayload};
use crate::extract::{ack_result, extract_ack_stream};
use crate::message::{OutboundFrame, RequestMessage, SpdGetMsg, SpdNewMsg, NLM_F_ACK,
    NLM_F_REQUEST};
use crate::transport::Handle;
use crate::types::{SpdHThresh, SpdInfoAttr};
use vstd::pervasive::unreached;

verus! {

/// What a policy-database statistics query answers with, given the reply
/// frames of the request: the decoded statistics payload, the kernel's
/// error, an unexpected frame carried whole, or a failed request when no
/// frame arrived.
pub open spec fn spd_info_result(frames: Seq<crate::reply::ReplyFrame>) -> Result<
    SpdNewMsg,
    Error,
> {
    match single_result(frames, PayloadKind::SpdInfo) {
        Ok(p) => match p {
            ReplyPayload::SpdInfo(m) => Ok(m),
            _ => arbitrary(),
        },
        Err(e) => Err(e),
    }
}

/// A request to read policy-database statistics.
#[derive(Clone, Debug, PartialEq, Eq)]
pub struct PolicyGetSpdInfoRequest {
    pub message: SpdGetMsg,
}

impl PolicyGetSpdInfoRequest {
    /// Constructs the query; the flags field asks for everything.
    pub fn new() -> (r: PolicyGetSpdInfoRequest)
        ensures
            r.message.flags == u32::MAX,
    {
        PolicyGetSpdInfoRequest { message: SpdGetMsg { flags: u32::MAX } }
    }

    /// Finalizes the draft, submits it with the request flag alone — a
    /// single-payload read asks for no acknowledgement — and takes exactly
    /// the first reply frame: the statistics payload decodes, anything
    /// else is the operation's error, and a sequence that closes without a
    /// frame is a failed request.
    pub fn execute(self, handle: &mut Handle) -> (r: Result<SpdNewMsg, Error>)
        ensures
            !old(handle).accepting ==> r == Err::<SpdNewMsg, Error>(Error::RequestFailed)
                && *final(handle) == *old(handle),
            old(handle).accepting ==> ({
                &&& final(handle).sent@ == old(handle).sent@.push(
                    (OutboundFrame {
                        flags: NLM_F_REQUEST,
                        message: RequestMessage::GetSpdInfo(self.message),
                    }),
                )
                &&& final(handle).scripts@ == old(handle).scripts_after_request()
                &&& final(handle).accepting
                &&& r == spd_info_result(old(handle).next_script())
            }),
    {
        let frame = OutboundFrame {
            flags: NLM_F_REQUEST,
            message: RequestMessage::GetSpdInfo(self.message),
        };
        let mut replies = handle.request(frame)?;
        match extract_single(&mut replies, PayloadKind::SpdInfo) {
            Ok(p) => match p {
                ReplyPayload::SpdInfo(m) => Ok(m),
                _ => unreached(),
            },
            Err(e) => Err(e),
        }
    }

    /// A mutable reference to the underlying message, for fields not
    /// covered by the named configuration calls.
    pub fn message_mut(&mut self) -> (r: &mut SpdGetMsg)
        ensures
            *r == old(self).message,
            *final(self) == (PolicyGetSpdInfoRequest { message: *final(r) }),
    {
        &mut self.message
    }
}

/// A request to set policy-database hash thresholds.
#[derive(Clone, Debug, PartialEq, Eq)]
pub struct PolicySetSpdInfoRequest {
    pub message: SpdNewMsg,
    /// Threshold settings accumulated for the deferred merge, in call
    /// order.
    pub thresholds: Vec<SpdInfoAttr>,
}

impl PolicySetSpdInfoRequest {
    /// The attribute list of the finalized frame: the draft's attributes
    /// followed by every recorded threshold setting, in call order.
    pub open spec fn finalized_attrs(&self) -> Seq<SpdInfoAttr> {
        self.message.attrs@ + self.thresholds@
    }

    /// True when `f` is the frame this draft finalizes to under the given
    /// header flags: the info message is carried with the deferred
    /// threshold merge applied.
    pub open spec fn is_finalized_frame(&self, f: OutboundFrame, flags: u16) -> bool {
        &&& f.flags == flags
        &&& f.message matches RequestMessage::SetSpdInfo(m) && m.flags == self.message.flags
            && m.attrs@ == self.finalized_attrs()
    }

    /// Constructs the draft; the flags field asks for everything.
    pub fn new() -> (r: PolicySetSpdInfoRequest)
        ensures
            r.message.flags == u32::MAX,
            r.message.attrs@.len() == 0,
            r.thresholds@.len() == 0,
    {
        PolicySetSpdInfoRequest {
            message: SpdNewMsg { flags: u32::MAX, attrs: Vec::new() },
            thresholds: Vec::new(),
        }
    }

    /// Records hash thresholds for the 4-address-family case.  Accepted
    /// only when both bit widths are at most 32; an out-of-range pair
    /// leaves the draft untouched.
    pub fn hthresh4(self, lbits: u8, rbits: u8) -> (r: Self)
        ensures
            lbits <= 32 && rbits <= 32 ==> r.message == self.message && r.thresholds@
                == self.thresholds@.push(SpdInfoAttr::Ipv4HThresh((SpdHThresh { lbits, rbits }))),
            !(lbits <= 32 && rbits <= 32) ==> r == self,
    {
        let mut q = self;
        if lbits <= 32 && rbits <= 32 {
            q.thresholds.push(SpdInfoAttr::Ipv4HThresh(SpdHThresh { lbits, rbits }));
        }
        q
    }

    /// Records hash thresholds for the 6-address-family case.  Accepted
    /// only when both bit widths are at most 128; an out-of-range pair
    /// leaves the draft untouched.
    pub fn hthresh6(self, lbits: u8, rbits: u8) -> (r: Self)
        ensures
            lbits <= 128 && rbits <= 128 ==> r.message == self.message && r.thresholds@
                == self.thresholds@.push(SpdInfoAttr::Ipv6HThresh((SpdHThresh { lbits, rbits }))),
            !(lbits <= 128 && rbits <= 128) ==> r == self,
    {
        let mut q = self;
        if lbits <= 128 && rbits <= 128 {
            q.thresholds.push(SpdInfoAttr::Ipv6HThresh(SpdHThresh { lbits, rbits }));
        }
        q
    }

    /// Finalizes the draft into the one outbound frame it submits:
    /// appends the recorded thresholds to the message's attributes and
    /// sets the acknowledged-request flags or the request flag alone.
    /// Finalizing consumes the draft; it is not repeatable.
    pub fn finalize(self, acked: bool) -> (f: OutboundFrame)
        ensures
            self.is_finalized_frame(
                f,
                if acked {
                    NLM_F_REQUEST | NLM_F_ACK
                } else {
                    NLM_F_REQUEST
                },
            ),
    {
        let PolicySetSpdInfoRequest { mut message, mut thresholds } = self;
        message.attrs.append(&mut thresholds);
        let flags = if acked {
            NLM_F_REQUEST | NLM_F_ACK
        } else {
            NLM_F_REQUEST
        };
        OutboundFrame { flags, message: RequestMessage::SetSpdInfo(message) }
    }

    /// Finalizes the draft — appending the recorded thresholds to the
    /// message's attributes — submits it with the acknowledged-request
    /// flags, and interprets the acknowledgement stream: success exactly
    /// when no kernel error or unexpected frame appears before the stream
    /// ends.
    pub fn execute(self, handle: &mut Handle) -> (r: Result<(), Error>)
        ensures
            !old(handle).accepting ==> r == Err::<(), Error>(Error::RequestFailed) && *final(handle)
                == *old(handle),
            old(handle).accepting ==> ({
                &&& final(handle).sent@.len() == old(handle).sent@.len() + 1
                &&& forall|i: int|
                    0 <= i < old(handle).sent@.len() ==> final(handle).sent@[i] == old(
                        handle,
                    ).sent@[i]
                &&& self.is_finalized_frame(
                    final(handle).sent@.last(),
                    NLM_F_REQUEST | NLM_F_ACK,
                )
                &&& final(handle).scripts@ == old(handle).scripts_after_request()
                &&& final(handle).accepting
                &&& r == ack_result(old(handle).next_script())
            }),
    {
        let frame = self.finalize(true);
        let mut replies = handle.request(frame)?;
        extract_ack_stream(&mut replies)
    }

    /// A mutable reference to the underlying message, for fields not
    /// covered by the named configuration calls.
    pub fn message_mut(&mut self) -> (r: &mut SpdNewMsg)
        ensures
            *r == old(self).message,
            *final(self) == (PolicySetSpdInfoRequest {
                message: *final(r),
                thresholds: old(self).thresholds,
            }),
    {
        &mut self.message
    }
}

} // verus!
