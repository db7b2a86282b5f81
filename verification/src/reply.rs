//! Reply frames as the connection hands them back, and the per-request
//! reply sequence they arrive in.

use vstd::prelude::*;

use crate::message::{SadInfoMsg, SaModifyMsg, SpdNewMsg};

verus! {

/// A decoded kernel error: the negative errno-style code and the raw header
/// bytes of the rejected request, kept for diagnostics.
#[derive(Clone, Debug, PartialEq, Eq)]
pub struct KernelError {
    pub code: i32,
    pub header: Vec<u8>,
}

/// One inbound frame of a request's reply sequence, mirroring the kernel's
/// answer kinds.
#[derive(Clone, Debug, PartialEq, Eq)]
pub enum ReplyFrame {
    /// A bare acknowledgement.
    Ack,
    /// The kernel rejected the operation.
    KernelError(KernelError),
    /// A state record payload.
    NewSa(SaModifyMsg),
    /// A policy-database statistics payload.
    NewSpdInfo(SpdNewMsg),
    /// A state-database statistics payload.
    NewSadInfo(SadInfoMsg),
    /// A frame of a kind this layer does not decode; carries the raw
    /// message type code and the undecoded frame bytes, so that an
    /// unexpected message still holds enough to reconstruct what arrived.
    Other(u16, Vec<u8>),
}

/// The per-request reply sequence: frames already demultiplexed by the
/// connection, in send order, consumed front to back.  Dropping the
/// sequence early silently discards the remaining frames; no cancel
/// message is ever sent.
#[derive(Debug)]
pub struct ReplySource {
    frames: Vec<ReplyFrame>,
}

impl View for ReplySource {
    type V = Seq<ReplyFrame>;

    closed spec fn view(&self) -> Seq<ReplyFrame> {
        self.frames@
    }
}

impl ReplySource {
    /// A reply sequence that will yield the given frames in order.
    pub fn new(frames: Vec<ReplyFrame>) -> (r: ReplySource)
        ensures
            r@ == frames@,
    {
        ReplySource { frames }
    }

    /// A reply sequence that the connection closed without any frame.
    pub fn empty() -> (r: ReplySource)
        ensures
            r@ == Seq::<ReplyFrame>::empty(),
    {
        ReplySource { frames: Vec::new() }
    }

    /// How many frames are still pending.
    pub fn remaining(&self) -> (n: usize)
        ensures
            n == self@.len(),
    {
        self.frames.len()
    }

    /// Takes the next frame, or reports that the connection closed the
    /// sequence.
    pub fn next(&mut self) -> (f: Option<ReplyFrame>)
        ensures
            old(self)@.len() == 0 ==> f is None && final(self)@ == old(self)@,
            old(self)@.len() > 0 ==> f == Some(old(self)@[0]) && final(self)@ == old(self)@.skip(
                1,
            ),
    {
        if self.frames.len() == 0 {
            None
        } else {
            let f = self.frames.remove(0);
            proof {
                assert(self.frames@ =~= old(self)@.skip(1));
            }
            Some(f)
        }
    }
}

} // verus!
