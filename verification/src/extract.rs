//! The response extractor: consumes a request's reply sequence under the
//! operation's expected reply shape and produces a typed payload, unit
//! success, or a typed error.
//!
//! Three modes exist.  Ack-stream mode discards acknowledgement frames and
//! succeeds when the sequence ends, aborting on the first kernel error or
//! unexpected frame.  Single-payload mode takes exactly the first frame and
//! never looks further.  Dump mode applies the single-payload matching rule
//! to each frame the consumer chooses to pull.

use vstd::prelude::*;

use crate::errors::Error;
use crate::reply::{KernelError, ReplyFrame, ReplySource};
use crate::message::{SadInfoMsg, SaModifyMsg, SpdNewMsg};

verus! {

/// The payload variant an operation expects the kernel to answer with.
#[derive(Clone, Copy, Debug, PartialEq, Eq, Structural)]
pub enum PayloadKind {
    Sa,
    SpdInfo,
    SadInfo,
}

/// A decoded payload extracted from a reply frame.
#[derive(Clone, Debug, PartialEq, Eq)]
pub enum ReplyPayload {
    Sa(SaModifyMsg),
    SpdInfo(SpdNewMsg),
    SadInfo(SadInfoMsg),
}

/// The variant a decoded payload belongs to.
pub open spec fn payload_kind_of(p: ReplyPayload) -> PayloadKind {
    match p {
        ReplyPayload::Sa(_) => PayloadKind::Sa,
        ReplyPayload::SpdInfo(_) => PayloadKind::SpdInfo,
        ReplyPayload::SadInfo(_) => PayloadKind::SadInfo,
    }
}

/// Ack-stream verdict on one frame: an acknowledgement is discarded, a
/// kernel error becomes the operation's error, anything else is an
/// unexpected message carried whole.
pub open spec fn ack_verdict(f: ReplyFrame) -> Option<Error> {
    match f {
        ReplyFrame::Ack => None,
        ReplyFrame::KernelError(e) => Some(Error::NetlinkError(e)),
        _ => Some(Error::UnexpectedMessage(f)),
    }
}

/// Result of ack-stream extraction over a whole reply sequence: success
/// exactly when the sequence ends without a kernel error or unexpected
/// frame ever appearing.
pub open spec fn ack_result(frames: Seq<ReplyFrame>) -> Result<(), Error>
    decreases frames.len(),
{
    if frames.len() == 0 {
        Ok(())
    } else {
        match ack_verdict(frames[0]) {
            None => ack_result(frames.skip(1)),
            Some(e) => Err(e),
        }
    }
}

/// How many frames ack-stream extraction consumes: everything up to and
/// including the first non-acknowledgement frame, or the whole sequence.
pub open spec fn ack_consumed(frames: Seq<ReplyFrame>) -> int
    decreases frames.len(),
{
    if frames.len() == 0 {
        0
    } else if ack_verdict(frames[0]) is None {
        1 + ack_consumed(frames.skip(1))
    } else {
        1
    }
}

/// Single-payload matching rule on one frame: the expected payload variant
/// decodes, a kernel error becomes the operation's error, and any other
/// frame is an unexpected message carried whole.
pub open spec fn single_verdict(f: ReplyFrame, kind: PayloadKind) -> Result<ReplyPayload, Error> {
    match f {
        ReplyFrame::KernelError(e) => Err(Error::NetlinkError(e)),
        ReplyFrame::NewSa(m) => if kind == PayloadKind::Sa {
            Ok(ReplyPayload::Sa(m))
        } else {
            Err(Error::UnexpectedMessage(ReplyFrame::NewSa(m)))
        },
        ReplyFrame::NewSpdInfo(m) => if kind == PayloadKind::SpdInfo {
            Ok(ReplyPayload::SpdInfo(m))
        } else {
            Err(Error::UnexpectedMessage(ReplyFrame::NewSpdInfo(m)))
        },
        ReplyFrame::NewSadInfo(m) => if kind == PayloadKind::SadInfo {
            Ok(ReplyPayload::SadInfo(m))
        } else {
            Err(Error::UnexpectedMessage(ReplyFrame::NewSadInfo(m)))
        },
        _ => Err(Error::UnexpectedMessage(f)),
    }
}

/// Result of single-payload extraction over a whole reply sequence: the
/// verdict on the first frame, or `RequestFailed` when the mandatory reply
/// never arrived.
pub open spec fn single_result(frames: Seq<ReplyFrame>, kind: PayloadKind) -> Result<
    ReplyPayload,
    Error,
> {
    if frames.len() == 0 {
        Err(Error::RequestFailed)
    } else {
        single_verdict(frames[0], kind)
    }
}

/// How many frames single-payload extraction consumes: at most the first.
pub open spec fn single_consumed(frames: Seq<ReplyFrame>) -> int {
    if frames.len() == 0 {
        0
    } else {
        1
    }
}

/// Ack-stream extraction never consumes more frames than the sequence
/// holds.
pub proof fn lemma_ack_consumed_bounds(frames: Seq<ReplyFrame>)
    ensures
        0 <= ack_consumed(frames) <= frames.len(),
    decreases frames.len(),
{
    if frames.len() > 0 && ack_verdict(frames[0]) is None {
        lemma_ack_consumed_bounds(frames.skip(1));
    }
}

/// Ack-stream verdict on one frame, for drivers that pull frames one at a
/// time from a live connection.
pub fn ack_step(f: ReplyFrame) -> (v: Option<Error>)
    ensures
        v == ack_verdict(f),
{
    match f {
        ReplyFrame::Ack => None,
        ReplyFrame::KernelError(e) => Some(Error::NetlinkError(e)),
        other => Some(Error::UnexpectedMessage(other)),
    }
}

/// Single-payload matching rule on one frame, for drivers that pull frames
/// one at a time from a live connection.
pub fn single_step(f: ReplyFrame, kind: PayloadKind) -> (r: Result<ReplyPayload, Error>)
    ensures
        r == single_verdict(f, kind),
{
    match f {
        ReplyFrame::KernelError(e) => Err(Error::NetlinkError(e)),
        ReplyFrame::NewSa(m) => if kind == PayloadKind::Sa {
            Ok(ReplyPayload::Sa(m))
        } else {
            Err(Error::UnexpectedMessage(ReplyFrame::NewSa(m)))
        },
        ReplyFrame::NewSpdInfo(m) => if kind == PayloadKind::SpdInfo {
            Ok(ReplyPayload::SpdInfo(m))
        } else {
            Err(Error::UnexpectedMessage(ReplyFrame::NewSpdInfo(m)))
        },
        ReplyFrame::NewSadInfo(m) => if kind == PayloadKind::SadInfo {
            Ok(ReplyPayload::SadInfo(m))
        } else {
            Err(Error::UnexpectedMessage(ReplyFrame::NewSadInfo(m)))
        },
        other => Err(Error::UnexpectedMessage(other)),
    }
}

/// Ack-stream extraction: discards acknowledgements until the sequence
/// ends, aborting on the first kernel error or unexpected frame.  Frames
/// after the aborting one are never consumed.
pub fn extract_ack_stream(replies: &mut ReplySource) -> (r: Result<(), Error>)
    ensures
        r == ack_result(old(replies)@),
        final(replies)@ == old(replies)@.skip(ack_consumed(old(replies)@)),
{
    loop
        invariant
            ack_result(replies@) == ack_result(old(replies)@),
            old(replies)@.skip(ack_consumed(old(replies)@)) == replies@.skip(
                ack_consumed(replies@),
            ),
        decreases replies@.len(),
    {
        let ghost before = replies@;
        match replies.next() {
            None => {
                return Ok(());
            },
            Some(f) => {
                match ack_step(f) {
                    None => {
                        proof {
                            let c = ack_consumed(replies@);
                            lemma_ack_consumed_bounds(replies@);
                            assert(replies@ == before.skip(1));
                            assert(ack_verdict(before[0]) is None);
                            assert(ack_consumed(before) == 1 + c);
                            assert(before.skip(1 + c) =~= before.skip(1).skip(c));
                        }
                    },
                    Some(e) => {
                        return Err(e);
                    },
                }
            },
        }
    }
}

/// Single-payload extraction: takes exactly the first frame and applies the
/// matching rule; a sequence that closes without a frame is a failed
/// request.  Any further frames are never observed.
pub fn extract_single(replies: &mut ReplySource, kind: PayloadKind) -> (r: Result<
    ReplyPayload,
    Error,
>)
    ensures
        r == single_result(old(replies)@, kind),
        final(replies)@ == old(replies)@.skip(single_consumed(old(replies)@)),
{
    match replies.next() {
        None => {
            proof {
                assert(old(replies)@.skip(0) =~= old(replies)@);
            }
            Err(Error::RequestFailed)
        },
        Some(f) => single_step(f, kind),
    }
}

/// Dump extraction, consumer paced: applies the single-payload matching
/// rule to the next frame and yields the result as one item, or reports
/// that the connection closed the sequence.  An error item does not by
/// itself close the sequence.
pub fn dump_next(replies: &mut ReplySource, kind: PayloadKind) -> (item: Option<Result<
    ReplyPayload,
    Error,
>>)
    ensures
        old(replies)@.len() == 0 ==> item is None && final(replies)@ == old(replies)@,
        old(replies)@.len() > 0 ==> item == Some(single_verdict(old(replies)@[0], kind))
            && final(replies)@ == old(replies)@.skip(1),
{
    match replies.next() {
        None => None,
        Some(f) => Some(single_step(f, kind)),
    }
}

/// Dump extraction run to the end of the sequence: one item per frame, in
/// order, each judged independently by the single-payload matching rule.
pub fn extract_dump(replies: &mut ReplySource, kind: PayloadKind) -> (items: Vec<Result<
    ReplyPayload,
    Error,
>>)
    ensures
        items@.len() == old(replies)@.len(),
        forall|i: int|
            0 <= i < items@.len() ==> items@[i] == single_verdict(old(replies)@[i], kind),
        final(replies)@.len() == 0,
{
    let mut items: Vec<Result<ReplyPayload, Error>> = Vec::new();
    loop
        invariant
            items@.len() + replies@.len() == old(replies)@.len(),
            replies@ == old(replies)@.skip(items@.len() as int),
            forall|i: int|
                0 <= i < items@.len() ==> items@[i] == single_verdict(old(replies)@[i], kind),
        decreases replies@.len(),
    {
        match dump_next(replies, kind) {
            None => {
                return items;
            },
            Some(item) => {
                items.push(item);
                proof {
                    assert(replies@ =~= old(replies)@.skip(items@.len() as int));
                }
            },
        }
    }
}

/// The single-payload matching rule on one frame, specialized to the state
/// payload: what one frame of a state get, SPI allocation or state dump
/// yields.
pub open spec fn sa_verdict(f: ReplyFrame) -> Result<SaModifyMsg, Error> {
    match single_verdict(f, PayloadKind::Sa) {
        Ok(p) => match p {
            ReplyPayload::Sa(m) => Ok(m),
            _ => arbitrary(),
        },
        Err(e) => Err(e),
    }
}

/// What a state get or SPI allocation answers with, given the reply frames
/// of the request.
pub open spec fn sa_single_result(frames: Seq<ReplyFrame>) -> Result<SaModifyMsg, Error> {
    if frames.len() == 0 {
        Err(Error::RequestFailed)
    } else {
        sa_verdict(frames[0])
    }
}

/// Single-payload extraction specialized to the state payload.
pub fn extract_single_sa(replies: &mut ReplySource) -> (r: Result<SaModifyMsg, Error>)
    ensures
        r == sa_single_result(old(replies)@),
        final(replies)@ == old(replies)@.skip(single_consumed(old(replies)@)),
{
    match extract_single(replies, PayloadKind::Sa) {
        Ok(p) => match p {
            ReplyPayload::Sa(m) => Ok(m),
            _ => vstd::pervasive::unreached(),
        },
        Err(e) => Err(e),
    }
}

/// Dump extraction specialized to the state payload, consumer paced.
pub fn dump_next_sa(replies: &mut ReplySource) -> (item: Option<Result<SaModifyMsg, Error>>)
    ensures
        old(replies)@.len() == 0 ==> item is None && final(replies)@ == old(replies)@,
        old(replies)@.len() > 0 ==> item == Some(sa_verdict(old(replies)@[0])) && final(replies)@
            == old(replies)@.skip(1),
{
    match dump_next(replies, PayloadKind::Sa) {
        None => None,
        Some(Ok(p)) => match p {
            ReplyPayload::Sa(m) => Some(Ok(m)),
            _ => vstd::pervasive::unreached(),
        },
        Some(Err(e)) => Some(Err(e)),
    }
}

/// Dump extraction specialized to the state payload, run to the end of the
/// sequence: one item per frame, in order, each judged independently.
pub fn extract_dump_sas(replies: &mut ReplySource) -> (items: Vec<Result<SaModifyMsg, Error>>)
    ensures
        items@.len() == old(replies)@.len(),
        forall|i: int| 0 <= i < items@.len() ==> items@[i] == sa_verdict(old(replies)@[i]),
        final(replies)@.len() == 0,
{
    let mut items: Vec<Result<SaModifyMsg, Error>> = Vec::new();
    loop
        invariant
            items@.len() + replies@.len() == old(replies)@.len(),
            replies@ == old(replies)@.skip(items@.len() as int),
            forall|i: int| 0 <= i < items@.len() ==> items@[i] == sa_verdict(old(replies)@[i]),
        decreases replies@.len(),
    {
        match dump_next_sa(replies) {
            None => {
                return items;
            },
            Some(item) => {
                items.push(item);
                proof {
                    assert(replies@ =~= old(replies)@.skip(items@.len() as int));
                }
            },
        }
    }
}

/// Law: an acknowledgement stream whose frames are all acknowledgements
/// (no kernel error ever appears) extracts to success.
pub proof fn lemma_ack_stream_success(frames: Seq<ReplyFrame>)
    requires
        forall|i: int| 0 <= i < frames.len() ==> frames[i] is Ack,
    ensures
        ack_result(frames) == Ok::<(), Error>(()),
    decreases frames.len(),
{
    if frames.len() > 0 {
        assert(frames[0] is Ack);
        lemma_ack_stream_success(frames.skip(1));
    }
}

/// Law: if the frames before position `i` are all acknowledgements and the
/// frame at `i` is a kernel error, ack-stream extraction returns exactly
/// that error — regardless of the error's position — and consumes nothing
/// past position `i`.
pub proof fn lemma_ack_stream_error(frames: Seq<ReplyFrame>, i: int, e: KernelError)
    requires
        0 <= i < frames.len(),
        frames[i] == ReplyFrame::KernelError(e),
        forall|j: int| 0 <= j < i ==> frames[j] is Ack,
    ensures
        ack_result(frames) == Err::<(), Error>(Error::NetlinkError(e)),
        ack_consumed(frames) == i + 1,
    decreases i,
{
    if i > 0 {
        assert(frames[0] is Ack);
        lemma_ack_stream_error(frames.skip(1), i - 1, e);
    }
}

/// Law: the single-payload rule in full.  An empty sequence is a failed
/// request; otherwise only the first frame decides: a kernel error surfaces
/// as the operation's error, a payload of the expected variant decodes, and
/// any other frame surfaces whole as an unexpected message.
pub proof fn lemma_single_reply_rule(frames: Seq<ReplyFrame>, kind: PayloadKind)
    ensures
        frames.len() == 0 ==> single_result(frames, kind) == Err::<ReplyPayload, Error>(
            Error::RequestFailed,
        ),
        frames.len() > 0 ==> single_result(frames, kind) == single_verdict(frames[0], kind),
        forall|p: ReplyPayload|
            frames.len() > 0 && single_verdict(frames[0], kind) == Ok::<ReplyPayload, Error>(p)
                ==> payload_kind_of(p) == kind,
        frames.len() > 0 ==> (frames[0] matches ReplyFrame::KernelError(e) ==> single_result(
            frames,
            kind,
        ) == Err::<ReplyPayload, Error>(Error::NetlinkError(e))),
        frames.len() > 0 && !(frames[0] is KernelError) && single_verdict(frames[0], kind) is Err
            ==> single_verdict(frames[0], kind) == Err::<ReplyPayload, Error>(
            Error::UnexpectedMessage(frames[0]),
        ),
{
}

} // verus!
