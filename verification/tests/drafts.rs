//! Draft construction, fluent configuration, address validation, and the
//! deferred template and threshold aggregation.

use xfrm::addr::{Address, AF_INET, AF_INET6};
use xfrm::errors::Error;
use xfrm::message::RequestMessage;
use xfrm::policy::delete::PolicyDeleteRequest;
use xfrm::policy::modify::PolicyModifyRequest;
use xfrm::policy::spdinfo::PolicySetSpdInfoRequest;
use xfrm::state::delete::StateDeleteRequest;
use xfrm::transport::Handle;
use xfrm::types::{SpdHThresh, SpdInfoAttr, UserTemplate, XfrmAttr, XfrmId};

fn v4(a: u8, b: u8, c: u8, d: u8) -> Vec<u8> {
    vec![a, b, c, d]
}

fn template(reqid: u32) -> UserTemplate {
    UserTemplate {
        id: XfrmId {
            daddr: Address::zero(),
            spi: 0,
            proto: 50,
        },
        family: AF_INET,
        saddr: Address::zero(),
        reqid,
        mode: 1,
        share: 0,
        optional: 0,
        aalgos: u32::MAX,
        ealgos: u32::MAX,
        calgos: u32::MAX,
    }
}

#[test]
fn address_is_padded_to_the_kernel_width() {
    let a = Address::from_bytes(v4(10, 0, 0, 1)).unwrap();
    assert_eq!(a.octets.len(), 16);
    assert_eq!(&a.octets[..4], &[10, 0, 0, 1]);
    assert_eq!(&a.octets[4..], &[0u8; 12]);
}

#[test]
fn malformed_address_is_invalid_ip() {
    let r = StateDeleteRequest::new(vec![10, 0, 0], v4(10, 0, 0, 2));
    assert_eq!(r.unwrap_err(), Error::InvalidIp(vec![10, 0, 0]));
}

#[test]
fn malformed_prefixed_address_is_invalid_address() {
    let r = PolicyDeleteRequest::new(vec![1, 2, 3, 4, 5], 24, v4(10, 0, 0, 2), 32);
    assert_eq!(
        r.unwrap_err(),
        Error::InvalidAddress(vec![1, 2, 3, 4, 5], vec![24])
    );
}

#[test]
fn malformed_destination_reported_after_valid_source() {
    let r = StateDeleteRequest::new(v4(10, 0, 0, 1), vec![1]);
    assert_eq!(r.unwrap_err(), Error::InvalidIp(vec![1]));
}

#[test]
fn policy_draft_records_both_prefixes_and_family() {
    let q = PolicyDeleteRequest::new(v4(192, 168, 1, 0), 24, v4(10, 0, 0, 0), 8).unwrap();
    let sel = &q.message.id.selector;
    assert_eq!(&sel.saddr.octets[..4], &[192, 168, 1, 0]);
    assert_eq!(sel.prefixlen_s, 24);
    assert_eq!(&sel.daddr.octets[..4], &[10, 0, 0, 0]);
    assert_eq!(sel.prefixlen_d, 8);
    assert_eq!(sel.family, AF_INET);
}

#[test]
fn ipv6_destination_sets_the_ipv6_family() {
    let mut dst = vec![0u8; 16];
    dst[15] = 1;
    let q = StateDeleteRequest::new(v4(10, 0, 0, 1), dst.clone()).unwrap();
    assert_eq!(q.message.id.family, AF_INET6);
    assert_eq!(q.message.id.daddr.octets, dst);
}

#[test]
fn gre_key_is_spread_over_both_port_fields() {
    let q = PolicyDeleteRequest::new(v4(10, 0, 0, 1), 32, v4(10, 0, 0, 2), 32)
        .unwrap()
        .selector_protocol_gre_key(0xABCD_1234);
    let sel = &q.message.id.selector;
    assert_eq!(sel.sport, 0xABCD);
    assert_eq!(sel.sport_mask, 0xFFFF);
    assert_eq!(sel.dport, 0x1234);
    assert_eq!(sel.dport_mask, 0xFFFF);
}

#[test]
fn fluent_calls_accumulate_attributes_in_order() {
    let q = PolicyDeleteRequest::new_index(8)
        .direction(0)
        .ptype(1)
        .mark(0x10, 0xFF)
        .ifid(7);
    assert_eq!(q.message.id.index, 8);
    assert_eq!(q.message.attrs.len(), 3);
    assert!(matches!(q.message.attrs[0], XfrmAttr::PolicyType(1)));
    assert!(matches!(q.message.attrs[2], XfrmAttr::IfId(7)));
}

#[test]
fn zero_templates_finalize_with_no_template_attribute() {
    let q = PolicyModifyRequest::new(false, v4(10, 0, 0, 1), 32, v4(10, 0, 0, 2), 32).unwrap();
    let mut h = Handle::new();
    q.execute(&mut h).unwrap();
    match &h.sent[0].message {
        RequestMessage::AddPolicy(m) => assert_eq!(m.attrs.len(), 0),
        other => panic!("wrong operation kind: {:?}", other),
    }
}

#[test]
fn templates_merge_into_exactly_one_attribute_in_addition_order() {
    let q = PolicyModifyRequest::new(true, v4(10, 0, 0, 1), 32, v4(10, 0, 0, 2), 32)
        .unwrap()
        .add_template(template(1))
        .add_template(template(2))
        .add_template(template(3));
    let mut h = Handle::new();
    q.execute(&mut h).unwrap();
    match &h.sent[0].message {
        RequestMessage::UpdatePolicy(m) => {
            assert_eq!(m.attrs.len(), 1);
            match &m.attrs[0] {
                XfrmAttr::Template(ts) => {
                    assert_eq!(ts.len(), 3);
                    assert_eq!(ts[0].reqid, 1);
                    assert_eq!(ts[1].reqid, 2);
                    assert_eq!(ts[2].reqid, 3);
                }
                other => panic!("wrong attribute: {:?}", other),
            }
        }
        other => panic!("wrong operation kind: {:?}", other),
    }
}

#[test]
fn hthresh4_out_of_range_is_a_silent_no_op() {
    let q = PolicySetSpdInfoRequest::new().hthresh4(33, 0);
    assert_eq!(q.thresholds.len(), 0);
}

#[test]
fn hthresh4_at_the_bound_is_recorded() {
    let q = PolicySetSpdInfoRequest::new().hthresh4(32, 32);
    assert_eq!(
        q.thresholds,
        vec![SpdInfoAttr::Ipv4HThresh(SpdHThresh {
            lbits: 32,
            rbits: 32
        })]
    );
}

#[test]
fn hthresh6_out_of_range_is_a_silent_no_op() {
    let q = PolicySetSpdInfoRequest::new().hthresh6(129, 0);
    assert_eq!(q.thresholds.len(), 0);
}

#[test]
fn hthresh6_at_the_bound_is_recorded() {
    let q = PolicySetSpdInfoRequest::new().hthresh6(128, 128);
    assert_eq!(
        q.thresholds,
        vec![SpdInfoAttr::Ipv6HThresh(SpdHThresh {
            lbits: 128,
            rbits: 128
        })]
    );
}

#[test]
fn recorded_thresholds_are_merged_into_the_finalized_frame() {
    let q = PolicySetSpdInfoRequest::new().hthresh4(32, 32).hthresh6(128, 128);
    let mut h = Handle::new();
    q.execute(&mut h).unwrap();
    match &h.sent[0].message {
        RequestMessage::SetSpdInfo(m) => {
            assert_eq!(m.flags, u32::MAX);
            assert_eq!(
                m.attrs,
                vec![
                    SpdInfoAttr::Ipv4HThresh(SpdHThresh {
                        lbits: 32,
                        rbits: 32
                    }),
                    SpdInfoAttr::Ipv6HThresh(SpdHThresh {
                        lbits: 128,
                        rbits: 128
                    }),
                ]
            );
        }
        other => panic!("wrong operation kind: {:?}", other),
    }
}

#[test]
fn finalize_merges_templates_without_a_transport() {
    let frame = PolicyModifyRequest::new(true, v4(10, 0, 0, 1), 32, v4(10, 0, 0, 2), 32)
        .unwrap()
        .add_template(template(7))
        .add_template(template(8))
        .finalize(false);
    assert_eq!(frame.flags, xfrm::message::NLM_F_REQUEST);
    match &frame.message {
        RequestMessage::UpdatePolicy(m) => {
            assert_eq!(m.attrs.len(), 1);
            match &m.attrs[0] {
                XfrmAttr::Template(ts) => {
                    assert_eq!(ts.len(), 2);
                    assert_eq!(ts[0].reqid, 7);
                    assert_eq!(ts[1].reqid, 8);
                }
                other => panic!("wrong attribute: {:?}", other),
            }
        }
        other => panic!("wrong operation kind: {:?}", other),
    }
}

#[test]
fn finalize_merges_thresholds_without_a_transport() {
    let frame = PolicySetSpdInfoRequest::new().hthresh4(16, 16).finalize(true);
    assert_eq!(
        frame.flags,
        xfrm::message::NLM_F_REQUEST | xfrm::message::NLM_F_ACK
    );
    match &frame.message {
        RequestMessage::SetSpdInfo(m) => {
            assert_eq!(
                m.attrs,
                vec![SpdInfoAttr::Ipv4HThresh(SpdHThresh {
                    lbits: 16,
                    rbits: 16
                })]
            );
        }
        other => panic!("wrong operation kind: {:?}", other),
    }
}

#[test]
fn message_mut_exposes_uncovered_fields() {
    let mut q = PolicyDeleteRequest::new_index(8);
    q.message_mut().id.selector.user = 1000;
    assert_eq!(q.message.id.selector.user, 1000);
    assert_eq!(q.message.id.index, 8);
}
