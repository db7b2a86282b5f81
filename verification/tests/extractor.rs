//! Behaviour of the three extractor modes on synthetic reply sequences.

use xfrm::errors::Error;
use xfrm::extract::{
    dump_next_sa, extract_ack_stream, extract_dump_sas, extract_single, extract_single_sa,
    PayloadKind, ReplyPayload,
};
use xfrm::message::{SaInfo, SaModifyMsg};
use xfrm::reply::{KernelError, ReplyFrame, ReplySource};

fn sample_sa(spi: u32) -> SaModifyMsg {
    let mut info = SaInfo::initial();
    info.id.spi = spi;
    SaModifyMsg { info, attrs: Vec::new() }
}

fn kernel_error(code: i32) -> KernelError {
    KernelError {
        code,
        header: Vec::new(),
    }
}

#[test]
fn ack_stream_all_acks_succeeds() {
    let mut replies =
        ReplySource::new(vec![ReplyFrame::Ack, ReplyFrame::Ack, ReplyFrame::Ack]);
    assert_eq!(extract_ack_stream(&mut replies), Ok(()));
    assert_eq!(replies.remaining(), 0);
}

#[test]
fn ack_stream_empty_sequence_succeeds() {
    let mut replies = ReplySource::new(Vec::new());
    assert_eq!(extract_ack_stream(&mut replies), Ok(()));
}

#[test]
fn ack_stream_kernel_error_stops_consumption() {
    let mut replies = ReplySource::new(vec![
        ReplyFrame::Ack,
        ReplyFrame::KernelError(kernel_error(-22)),
        ReplyFrame::Ack,
        ReplyFrame::Ack,
    ]);
    let r = extract_ack_stream(&mut replies);
    assert_eq!(r, Err(Error::NetlinkError(kernel_error(-22))));
    // The error sat at position 1: exactly two frames were consumed and the
    // two after the error were not.
    assert_eq!(replies.remaining(), 2);
}

#[test]
fn ack_stream_error_first_consumes_one() {
    let mut replies = ReplySource::new(vec![
        ReplyFrame::KernelError(kernel_error(-1)),
        ReplyFrame::Ack,
    ]);
    let r = extract_ack_stream(&mut replies);
    assert_eq!(r, Err(Error::NetlinkError(kernel_error(-1))));
    assert_eq!(replies.remaining(), 1);
}

#[test]
fn ack_stream_unexpected_frame_carried_whole() {
    let payload = sample_sa(7);
    let mut replies = ReplySource::new(vec![
        ReplyFrame::Ack,
        ReplyFrame::NewSa(payload.clone()),
    ]);
    let r = extract_ack_stream(&mut replies);
    assert_eq!(r, Err(Error::UnexpectedMessage(ReplyFrame::NewSa(payload))));
}

#[test]
fn single_empty_sequence_is_request_failed() {
    let mut replies = ReplySource::new(Vec::new());
    let r = extract_single(&mut replies, PayloadKind::Sa);
    assert_eq!(r, Err(Error::RequestFailed));
}

#[test]
fn single_wrong_variant_is_unexpected_with_exact_frame() {
    let payload = sample_sa(9);
    let mut replies = ReplySource::new(vec![ReplyFrame::NewSa(payload.clone())]);
    let r = extract_single(&mut replies, PayloadKind::SpdInfo);
    assert_eq!(r, Err(Error::UnexpectedMessage(ReplyFrame::NewSa(payload))));
}

#[test]
fn single_ack_frame_is_unexpected() {
    let mut replies = ReplySource::new(vec![ReplyFrame::Ack]);
    let r = extract_single(&mut replies, PayloadKind::Sa);
    assert_eq!(r, Err(Error::UnexpectedMessage(ReplyFrame::Ack)));
}

#[test]
fn single_correct_variant_decodes_and_second_frame_is_never_observed() {
    let payload = sample_sa(11);
    let mut replies = ReplySource::new(vec![
        ReplyFrame::NewSa(payload.clone()),
        ReplyFrame::KernelError(kernel_error(-22)),
    ]);
    let r = extract_single_sa(&mut replies);
    assert_eq!(r, Ok(payload));
    // Only the first frame was consumed; the second is still pending.
    assert_eq!(replies.remaining(), 1);
}

#[test]
fn single_kernel_error_decodes_into_error() {
    let mut replies = ReplySource::new(vec![ReplyFrame::KernelError(kernel_error(-17))]);
    let r = extract_single_sa(&mut replies);
    assert_eq!(r, Err(Error::NetlinkError(kernel_error(-17))));
}

#[test]
fn dump_yields_one_item_per_frame_then_ends() {
    let mut replies = ReplySource::new(vec![
        ReplyFrame::NewSa(sample_sa(1)),
        ReplyFrame::NewSa(sample_sa(2)),
        ReplyFrame::NewSa(sample_sa(3)),
    ]);
    assert_eq!(dump_next_sa(&mut replies), Some(Ok(sample_sa(1))));
    assert_eq!(dump_next_sa(&mut replies), Some(Ok(sample_sa(2))));
    assert_eq!(dump_next_sa(&mut replies), Some(Ok(sample_sa(3))));
    assert_eq!(dump_next_sa(&mut replies), None);
}

#[test]
fn dump_error_item_does_not_close_the_sequence() {
    let mut replies = ReplySource::new(vec![
        ReplyFrame::NewSa(sample_sa(1)),
        ReplyFrame::KernelError(kernel_error(-22)),
        ReplyFrame::NewSa(sample_sa(3)),
    ]);
    let items = extract_dump_sas(&mut replies);
    assert_eq!(items.len(), 3);
    assert_eq!(items[0], Ok(sample_sa(1)));
    assert_eq!(items[1], Err(Error::NetlinkError(kernel_error(-22))));
    assert_eq!(items[2], Ok(sample_sa(3)));
}

#[test]
fn dump_wrong_variant_item_is_unexpected() {
    let mut replies = ReplySource::new(vec![ReplyFrame::Ack]);
    let items = extract_dump_sas(&mut replies);
    assert_eq!(items.len(), 1);
    assert_eq!(
        items[0],
        Err(Error::UnexpectedMessage(ReplyFrame::Ack))
    );
}

#[test]
fn extract_payload_distinguishes_kinds() {
    let payload = sample_sa(5);
    let mut replies = ReplySource::new(vec![ReplyFrame::NewSa(payload.clone())]);
    let r = extract_single(&mut replies, PayloadKind::Sa);
    assert_eq!(r, Ok(ReplyPayload::Sa(payload)));
}
