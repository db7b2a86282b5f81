//! Closed taxonomy of failure causes, used by the response extractor and by
//! draft-construction-time address validation.

use vstd::prelude::*;

use crate::reply::{KernelError, ReplyFrame};

verus! {

/// Everything that can go wrong while building a request draft or while
/// interpreting the reply frames of an executed request.
#[derive(Clone, Debug, PartialEq, Eq)]
pub enum Error {
    /// A reply frame's tag does not match the operation's expected shape;
    /// carries the entire offending frame for diagnostics.
    UnexpectedMessage(ReplyFrame),
    /// The kernel explicitly rejected the operation; carries the decoded
    /// kernel error payload.
    NetlinkError(KernelError),
    /// A request was refused by the transport, or a mandatory single reply
    /// never arrived.
    RequestFailed,
    /// Address bytes could not be converted to the kernel's fixed-width
    /// binary form; carries the offending raw bytes.
    InvalidIp(Vec<u8>),
    /// An address-and-prefix pair could not be converted; carries the
    /// offending raw bytes of both parts.
    InvalidAddress(Vec<u8>, Vec<u8>),
    /// An algorithm or compression name string violates the required format;
    /// carries the offending string.
    AlgName(String),
}

} // verus!
