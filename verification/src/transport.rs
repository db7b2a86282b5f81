//! The transport handle: submits one finalized frame per request and hands
//! back that request's reply sequence, already demultiplexed by the
//! connection.
//!
//! The handle is modelled as a value: it records every submitted frame and
//! holds the reply sequences the connection will serve, front first, one
//! per submitted request.  A live socket-backed connection sits outside
//! this crate; drivers for it are built from the per-frame step functions
//! of the extractor.

use vstd::prelude::*;

use crate::errors::Error;
use crate::message::OutboundFrame;
use crate::reply::{ReplyFrame, ReplySource};

verus! {

/// A handle to the connection.  Submitting a frame either yields the next
/// pending reply sequence or fails with `RequestFailed` when the transport
/// refuses the submission; nothing is retried and nothing is cached.
#[derive(Debug)]
pub struct Handle {
    /// Whether the transport currently accepts submissions.
    pub accepting: bool,
    /// Reply sequences the connection will serve, front first, one per
    /// submitted request.
    pub scripts: Vec<ReplySource>,
    /// Every frame submitted so far, in submission order.
    pub sent: Vec<OutboundFrame>,
}

impl Handle {
    /// The reply sequence the next submitted request will receive: the
    /// front pending script, or an immediately closed sequence when none
    /// is pending.
    pub open spec fn next_script(&self) -> Seq<ReplyFrame> {
        if self.scripts@.len() > 0 {
            self.scripts@[0]@
        } else {
            Seq::<ReplyFrame>::empty()
        }
    }

    /// The pending reply sequences left after one submission.
    pub open spec fn scripts_after_request(&self) -> Seq<ReplySource> {
        if self.scripts@.len() > 0 {
            self.scripts@.skip(1)
        } else {
            self.scripts@
        }
    }

    /// A handle that accepts submissions and has nothing pending.
    pub fn new() -> (r: Handle)
        ensures
            r.accepting,
            r.scripts@.len() == 0,
            r.sent@.len() == 0,
    {
        Handle { accepting: true, scripts: Vec::new(), sent: Vec::new() }
    }

    /// Appends one pending reply sequence for a future request.
    pub fn script(&mut self, frames: Vec<ReplyFrame>)
        ensures
            final(self).accepting == old(self).accepting,
            final(self).sent@ == old(self).sent@,
            final(self).scripts@.len() == old(self).scripts@.len() + 1,
            forall|i: int|
                0 <= i < old(self).scripts@.len() ==> final(self).scripts@[i] == old(
                    self,
                ).scripts@[i],
            final(self).scripts@.last()@ == frames@,
    {
        self.scripts.push(ReplySource::new(frames));
    }

    /// Makes the transport refuse every further submission.
    pub fn refuse(&mut self)
        ensures
            *final(self) == (Handle { accepting: false, ..*old(self) }),
    {
        self.accepting = false;
    }

    /// Submits one finalized frame.  On acceptance the frame is recorded
    /// and the next pending reply sequence is handed out, exclusively owned
    /// by the caller; on refusal nothing changes and the request has
    /// failed.
    pub fn request(&mut self, frame: OutboundFrame) -> (r: Result<ReplySource, Error>)
        ensures
            old(self).accepting ==> (r matches Ok(replies) && replies@ == old(self).next_script()
                && final(self).sent@ == old(self).sent@.push(frame) && final(self).scripts@ == old(
                self,
            ).scripts_after_request()),
            !old(self).accepting ==> r == Err::<ReplySource, Error>(Error::RequestFailed)
                && *final(self) == *old(self),
            final(self).accepting == old(self).accepting,
    {
        if !self.accepting {
            return Err(Error::RequestFailed);
        }
        self.sent.push(frame);
        if self.scripts.len() > 0 {
            let s = self.scripts.remove(0);
            proof {
                assert(self.scripts@ =~= old(self).scripts@.skip(1));
            }
            Ok(s)
        } else {
            Ok(ReplySource::empty())
        }
    }
}

} // verus!
