//! End-to-end scenarios against the scripted transport: header flags,
//! round trips, dumps, and transport refusal.

use xfrm::addr::{Address, AF_INET};
use xfrm::errors::Error;
use xfrm::extract::dump_next_sa;
use xfrm::message::{SaInfo, SaModifyMsg, NLM_F_ACK, NLM_F_DUMP, NLM_F_REQUEST};
use xfrm::reply::{KernelError, ReplyFrame};
use xfrm::message::{SadInfoMsg, SpdNewMsg};
use xfrm::policy::spdinfo::PolicyGetSpdInfoRequest;
use xfrm::state::handle::StateHandle;
use xfrm::transport::Handle;
use xfrm::types::SadInfoAttr;

fn v4(a: u8, b: u8, c: u8, d: u8) -> Vec<u8> {
    vec![a, b, c, d]
}

fn sa_record(src: [u8; 4], dst: [u8; 4], proto: u8, spi: u32) -> SaModifyMsg {
    let mut info = SaInfo::initial();
    info.saddr = Address::from_bytes(src.to_vec()).unwrap();
    info.id.daddr = Address::from_bytes(dst.to_vec()).unwrap();
    info.id.proto = proto;
    info.id.spi = spi;
    info.family = AF_INET;
    SaModifyMsg {
        info,
        attrs: Vec::new(),
    }
}

#[test]
fn acked_execute_sets_request_and_ack_flags() {
    let mut sh = StateHandle::new(Handle::new());
    sh.handle_mut().script(vec![ReplyFrame::Ack]);
    let req = sh.delete(v4(10, 0, 0, 1), v4(10, 0, 0, 2)).unwrap();
    req.execute(sh.handle_mut()).unwrap();
    let h = sh.handle_mut();
    assert_eq!(h.sent.len(), 1);
    assert_eq!(h.sent[0].flags, NLM_F_REQUEST | NLM_F_ACK);
}

#[test]
fn noack_execute_sets_request_flag_only() {
    let mut h = Handle::new();
    let req = StateHandle::new(Handle::new())
        .delete(v4(10, 0, 0, 1), v4(10, 0, 0, 2))
        .unwrap();
    req.execute_noack(&mut h).unwrap();
    assert_eq!(h.sent[0].flags, NLM_F_REQUEST);
    assert_eq!(h.sent[0].flags & NLM_F_ACK, 0);
}

#[test]
fn dump_execute_sets_request_and_dump_flags_and_never_ack() {
    let mut sh = StateHandle::new(Handle::new());
    let req = sh.get_dump();
    let _replies = req.execute(sh.handle_mut()).unwrap();
    let h = sh.handle_mut();
    assert_eq!(h.sent[0].flags, NLM_F_REQUEST | NLM_F_DUMP);
    assert_eq!(h.sent[0].flags & NLM_F_ACK, 0);
}

#[test]
fn state_get_round_trip_returns_the_decoded_payload_unchanged() {
    let record = sa_record([10, 0, 0, 1], [10, 0, 0, 2], 50, 0x1001);
    let mut sh = StateHandle::new(Handle::new());
    sh.handle_mut().script(vec![ReplyFrame::NewSa(record.clone())]);
    let req = sh
        .get(v4(10, 0, 0, 1), v4(10, 0, 0, 2))
        .unwrap()
        .protocol(50)
        .spi(0x1001);
    let got = req.execute(sh.handle_mut()).unwrap();
    assert_eq!(got, record);
}

#[test]
fn state_add_then_matching_reply_round_trip() {
    // An add is acknowledged; the draft's record travels unchanged in the
    // submitted frame.
    let mut sh = StateHandle::new(Handle::new());
    sh.handle_mut().script(vec![ReplyFrame::Ack]);
    let req = sh
        .add(v4(10, 0, 0, 1), v4(10, 0, 0, 2))
        .unwrap()
        .protocol(50)
        .spi(0x1001);
    let drafted = req.message.clone();
    req.execute(sh.handle_mut()).unwrap();
    let h = sh.handle_mut();
    match &h.sent[0].message {
        xfrm::message::RequestMessage::AddSa(m) => {
            assert_eq!(*m, drafted);
            assert_eq!(m.info.id.proto, 50);
            assert_eq!(m.info.id.spi, 0x1001);
        }
        other => panic!("wrong operation kind: {:?}", other),
    }
}

#[test]
fn dump_of_three_records_yields_three_items_then_ends() {
    let mut sh = StateHandle::new(Handle::new());
    sh.handle_mut().script(vec![
        ReplyFrame::NewSa(sa_record([10, 0, 0, 1], [10, 0, 0, 2], 50, 1)),
        ReplyFrame::NewSa(sa_record([10, 0, 0, 1], [10, 0, 0, 2], 50, 2)),
        ReplyFrame::NewSa(sa_record([10, 0, 0, 1], [10, 0, 0, 2], 50, 3)),
    ]);
    let req = sh.get_dump();
    let mut replies = req.execute(sh.handle_mut()).unwrap();
    let mut spis = Vec::new();
    while let Some(item) = dump_next_sa(&mut replies) {
        spis.push(item.unwrap().info.id.spi);
    }
    assert_eq!(spis, vec![1, 2, 3]);
}

#[test]
fn refused_transport_fails_the_request_and_sends_nothing() {
    let mut h = Handle::new();
    h.refuse();
    let req = StateHandle::new(Handle::new())
        .delete(v4(10, 0, 0, 1), v4(10, 0, 0, 2))
        .unwrap();
    assert_eq!(req.execute(&mut h), Err(Error::RequestFailed));
    assert_eq!(h.sent.len(), 0);
}

#[test]
fn refused_transport_fails_even_the_unacknowledged_execute() {
    let mut h = Handle::new();
    h.refuse();
    let req = StateHandle::new(Handle::new())
        .delete(v4(10, 0, 0, 1), v4(10, 0, 0, 2))
        .unwrap();
    assert_eq!(req.execute_noack(&mut h), Err(Error::RequestFailed));
}

#[test]
fn get_with_empty_reply_sequence_is_request_failed() {
    let mut sh = StateHandle::new(Handle::new());
    let req = sh.get(v4(10, 0, 0, 1), v4(10, 0, 0, 2)).unwrap();
    assert_eq!(req.execute(sh.handle_mut()), Err(Error::RequestFailed));
}

#[test]
fn add_rejected_by_the_kernel_surfaces_the_kernel_error() {
    let ke = KernelError {
        code: -22,
        header: Vec::new(),
    };
    let mut sh = StateHandle::new(Handle::new());
    sh.handle_mut()
        .script(vec![ReplyFrame::KernelError(ke.clone())]);
    let req = sh.add(v4(10, 0, 0, 1), v4(10, 0, 0, 2)).unwrap();
    assert_eq!(
        req.execute(sh.handle_mut()),
        Err(Error::NetlinkError(ke))
    );
}

#[test]
fn flush_is_acknowledged_and_carries_its_protocol() {
    let mut sh = StateHandle::new(Handle::new());
    sh.handle_mut().script(vec![ReplyFrame::Ack]);
    let req = sh.flush().protocol(50);
    req.execute(sh.handle_mut()).unwrap();
    let h = sh.handle_mut();
    assert_eq!(h.sent[0].flags, NLM_F_REQUEST | NLM_F_ACK);
    match &h.sent[0].message {
        xfrm::message::RequestMessage::FlushSa(m) => assert_eq!(m.proto, 50),
        other => panic!("wrong operation kind: {:?}", other),
    }
}

#[test]
fn sadinfo_query_decodes_the_statistics_payload() {
    let stats = SadInfoMsg {
        flags: u32::MAX,
        attrs: vec![SadInfoAttr::SadCount(4)],
    };
    let mut sh = StateHandle::new(Handle::new());
    sh.handle_mut()
        .script(vec![ReplyFrame::NewSadInfo(stats.clone())]);
    let req = sh.get_sadinfo();
    assert_eq!(req.execute(sh.handle_mut()), Ok(stats));
    // A single-payload read asks for no acknowledgement.
    assert_eq!(sh.handle_mut().sent[0].flags, NLM_F_REQUEST);
}

#[test]
fn spdinfo_query_decodes_the_statistics_payload() {
    let stats = SpdNewMsg {
        flags: u32::MAX,
        attrs: Vec::new(),
    };
    let mut h = Handle::new();
    h.script(vec![ReplyFrame::NewSpdInfo(stats.clone())]);
    let req = PolicyGetSpdInfoRequest::new();
    assert_eq!(req.execute(&mut h), Ok(stats));
    // A single-payload read asks for no acknowledgement.
    assert_eq!(h.sent[0].flags, NLM_F_REQUEST);
    assert_eq!(h.sent[0].flags & NLM_F_ACK, 0);
}
