//! A request to delete a policy, identified either by its traffic selector
//! or by its index.

use vstd::prelude::*;

use crate::addr::{addr_bytes_ok, Address};
use crate::errors::Error;
use crate::extract::{ack_result, extract_ack_stream};
use crate::message::{OutboundFrame, PolicyDelGetMsg, PolicyId, RequestMessage, NLM_F_ACK,
    NLM_F_REQUEST};
use crate::transport::Handle;
use crate::types::{is_prefixed_selector, Mark, Selector, XfrmAttr};
use vstd::slice::slice_to_vec;

verus! {

/// A request to delete a policy.  Pure data until executed; fluent
/// configuration calls mutate the draft and hand it back.
#[derive(Clone, Debug, PartialEq, Eq)]
pub struct PolicyDeleteRequest {
    pub message: PolicyDelGetMsg,
}

/// The draft with its selector replaced and everything else kept.
pub open spec fn with_selector(q: PolicyDeleteRequest, sel: Selector) -> PolicyDeleteRequest {
    PolicyDeleteRequest {
        message: PolicyDelGetMsg { id: PolicyId { selector: sel, ..q.message.id }, ..q.message },
    }
}

impl PolicyDeleteRequest {
    /// Constructs the draft from source and destination selector prefixes,
    /// given as raw address bytes.  Fails before any frame exists when an
    /// address cannot be converted to the kernel form.
    pub fn new(src_addr: Vec<u8>, src_prefix_len: u8, dst_addr: Vec<u8>, dst_prefix_len: u8) -> (r:
        Result<PolicyDeleteRequest, Error>)
        ensures
            addr_bytes_ok(src_addr@) && addr_bytes_ok(dst_addr@) ==> (r matches Ok(q) && ({
                &&& is_prefixed_selector(
                    q.message.id.selector,
                    src_addr@,
                    src_prefix_len,
                    dst_addr@,
                    dst_prefix_len,
                )
                &&& q.message.id.index == 0
                &&& q.message.id.direction == 0
                &&& q.message.attrs@.len() == 0
            })),
            !addr_bytes_ok(src_addr@) ==> (r matches Err(e) && e matches Error::InvalidAddress(
                b,
                p,
            ) && b == src_addr && p@ == seq![src_prefix_len]),
            addr_bytes_ok(src_addr@) && !addr_bytes_ok(dst_addr@) ==> (r matches Err(e)
                && e matches Error::InvalidAddress(b, p) && b == dst_addr && p@ == seq![
                dst_prefix_len,
            ]),
    {
        let src_family = Address::family_of(&src_addr);
        let dst_family = Address::family_of(&dst_addr);
        let saddr = Address::from_bytes_prefixed(src_addr, src_prefix_len)?;
        let daddr = Address::from_bytes_prefixed(dst_addr, dst_prefix_len)?;
        let mut message = PolicyDelGetMsg { id: PolicyId::initial(), attrs: Vec::new() };
        message.id.selector.set_source_prefix(saddr, src_prefix_len, src_family);
        message.id.selector.set_destination_prefix(daddr, dst_prefix_len, dst_family);
        Ok(PolicyDeleteRequest { message })
    }

    /// Constructs the draft from a policy index instead of a selector.
    pub fn new_index(index: u32) -> (r: PolicyDeleteRequest)
        ensures
            r.message.id.selector.is_initial(),
            r.message.id.index == index,
            r.message.id.direction == 0,
            r.message.attrs@.len() == 0,
    {
        let mut message = PolicyDelGetMsg { id: PolicyId::initial(), attrs: Vec::new() };
        message.id.index = index;
        PolicyDeleteRequest { message }
    }

    /// Sets the policy direction.
    pub fn direction(self, direction: u8) -> (r: Self)
        ensures
            r == (PolicyDeleteRequest {
                message: PolicyDelGetMsg {
                    id: PolicyId { direction, ..self.message.id },
                    ..self.message
                },
            }),
    {
        let mut q = self;
        q.message.id.direction = direction;
        q
    }

    /// Appends the policy type attribute.
    pub fn ptype(self, ptype: u8) -> (r: Self)
        ensures
            r.message.id == self.message.id,
            r.message.attrs@ == self.message.attrs@.push(XfrmAttr::PolicyType(ptype)),
    {
        let mut q = self;
        q.message.attrs.push(XfrmAttr::PolicyType(ptype));
        q
    }

    /// Appends the opaque security-context attribute.
    pub fn security_context(self, secctx: &[u8]) -> (r: Self)
        ensures
            r.message.id == self.message.id,
            r.message.attrs@.len() == self.message.attrs@.len() + 1,
            forall|i: int|
                0 <= i < self.message.attrs@.len() ==> r.message.attrs@[i]
                    == self.message.attrs@[i],
            r.message.attrs@.last() matches XfrmAttr::SecurityContext(c) && c@ == secctx@,
    {
        let mut q = self;
        q.message.attrs.push(XfrmAttr::SecurityContext(slice_to_vec(secctx)));
        q
    }

    /// Sets the policy index.  Only values whose low three bits equal the
    /// direction are accepted by the kernel; a mismatch surfaces as a
    /// kernel error at execute time, not here.
    pub fn index(self, index: u32) -> (r: Self)
        ensures
            r == (PolicyDeleteRequest {
                message: PolicyDelGetMsg {
                    id: PolicyId { index, ..self.message.id },
                    ..self.message
                },
            }),
    {
        let mut q = self;
        q.message.id.index = index;
        q
    }

    /// Appends the interface id attribute.
    pub fn ifid(self, ifid: u32) -> (r: Self)
        ensures
            r.message.id == self.message.id,
            r.message.attrs@ == self.message.attrs@.push(XfrmAttr::IfId(ifid)),
    {
        let mut q = self;
        q.message.attrs.push(XfrmAttr::IfId(ifid));
        q
    }

    /// Appends the mark-and-mask attribute.
    pub fn mark(self, mark: u32, mask: u32) -> (r: Self)
        ensures
            r.message.id == self.message.id,
            r.message.attrs@ == self.message.attrs@.push(
                XfrmAttr::Mark(Mark { value: mark, mask }),
            ),
    {
        let mut q = self;
        q.message.attrs.push(XfrmAttr::Mark(Mark { value: mark, mask }));
        q
    }

    /// Sets the selector's transport protocol.
    pub fn selector_protocol(self, proto: u8) -> (r: Self)
        ensures
            r == with_selector(self, (Selector { proto, ..self.message.id.selector })),
    {
        let mut q = self;
        q.message.id.selector.proto = proto;
        q
    }

    /// Sets the selector's source port, matched exactly.
    pub fn selector_protocol_src_port(self, port: u16) -> (r: Self)
        ensures
            r == with_selector(
                self,
                (Selector { sport: port, sport_mask: 0xffff, ..self.message.id.selector }),
            ),
    {
        let mut q = self;
        q.message.id.selector.sport = port;
        q.message.id.selector.sport_mask = 0xffff;
        q
    }

    /// Sets the selector's destination port, matched exactly.
    pub fn selector_protocol_dst_port(self, port: u16) -> (r: Self)
        ensures
            r == with_selector(
                self,
                (Selector { dport: port, dport_mask: 0xffff, ..self.message.id.selector }),
            ),
    {
        let mut q = self;
        q.message.id.selector.dport = port;
        q.message.id.selector.dport_mask = 0xffff;
        q
    }

    /// Sets the protocol-specific type overlay on the source port field.
    pub fn selector_protocol_type(self, proto_type: u8) -> (r: Self)
        ensures
            r == with_selector(
                self,
                (Selector {
                    sport: proto_type as u16,
                    sport_mask: 0xffff,
                    ..self.message.id.selector
                }),
            ),
    {
        let mut q = self;
        q.message.id.selector.sport = proto_type as u16;
        q.message.id.selector.sport_mask = 0xffff;
        q
    }

    /// Sets the protocol-specific code overlay on the destination port
    /// field.
    pub fn selector_protocol_code(self, proto_code: u8) -> (r: Self)
        ensures
            r == with_selector(
                self,
                (Selector {
                    dport: proto_code as u16,
                    dport_mask: 0xffff,
                    ..self.message.id.selector
                }),
            ),
    {
        let mut q = self;
        q.message.id.selector.dport = proto_code as u16;
        q.message.id.selector.dport_mask = 0xffff;
        q
    }

    /// Spreads a 32-bit GRE key over the two 16-bit port fields: the high
    /// half on the source side, the low half on the destination side.
    pub fn selector_protocol_gre_key(self, gre_key: u32) -> (r: Self)
        ensures
            r == with_selector(
                self,
                (Selector {
                    sport: (gre_key >> 16) as u16,
                    sport_mask: 0xffff,
                    dport: (gre_key & 0xffff) as u16,
                    dport_mask: 0xffff,
                    ..self.message.id.selector
                }),
            ),
    {
        let mut q = self;
        q.message.id.selector.sport = (gre_key >> 16) as u16;
        q.message.id.selector.sport_mask = 0xffff;
        q.message.id.selector.dport = (gre_key & 0xffff) as u16;
        q.message.id.selector.dport_mask = 0xffff;
        q
    }

    /// Sets the selector's device index.
    pub fn selector_dev_id(self, id: u32) -> (r: Self)
        ensures
            r == with_selector(
                self,
                (Selector { ifindex: id as i32, ..self.message.id.selector }),
            ),
    {
        let mut q = self;
        q.message.id.selector.ifindex = id as i32;
        q
    }

    /// Finalizes the draft, submits it with the acknowledged-request flags,
    /// and interprets the acknowledgement stream: success exactly when no
    /// kernel error or unexpected frame appears before the stream ends.
    pub fn execute(self, handle: &mut Handle) -> (r: Result<(), Error>)
        ensures
            !old(handle).accepting ==> r == Err::<(), Error>(Error::RequestFailed) && *final(handle)
                == *old(handle),
            old(handle).accepting ==> ({
                &&& final(handle).sent@ == old(handle).sent@.push(
                    (OutboundFrame {
                        flags: NLM_F_REQUEST | NLM_F_ACK,
                        message: RequestMessage::DeletePolicy(self.message),
                    }),
                )
                &&& final(handle).scripts@ == old(handle).scripts_after_request()
                &&& final(handle).accepting
                &&& r == ack_result(old(handle).next_script())
            }),
    {
        let frame = OutboundFrame {
            flags: NLM_F_REQUEST | NLM_F_ACK,
            message: RequestMessage::DeletePolicy(self.message),
        };
        let mut replies = handle.request(frame)?;
        extract_ack_stream(&mut replies)
    }

    /// Finalizes the draft, submits it with the request flag alone, and
    /// returns as soon as the transport accepts the frame.  No reply is
    /// ever inspected, so no kernel error and no unexpected message can
    /// surface, and nothing confirms that the kernel applied the change.
    pub fn execute_noack(self, handle: &mut Handle) -> (r: Result<(), Error>)
        ensures
            !old(handle).accepting ==> r == Err::<(), Error>(Error::RequestFailed) && *final(handle)
                == *old(handle),
            old(handle).accepting ==> ({
                &&& final(handle).sent@ == old(handle).sent@.push(
                    (OutboundFrame {
                        flags: NLM_F_REQUEST,
                        message: RequestMessage::DeletePolicy(self.message),
                    }),
                )
                &&& final(handle).scripts@ == old(handle).scripts_after_request()
                &&& final(handle).accepting
                &&& r == Ok::<(), Error>(())
            }),
    {
        let frame = OutboundFrame {
            flags: NLM_F_REQUEST,
            message: RequestMessage::DeletePolicy(self.message),
        };
        let _replies = handle.request(frame)?;
        Ok(())
    }

    /// A mutable reference to the underlying message, for fields not
    /// covered by the named configuration calls.
    pub fn message_mut(&mut self) -> (r: &mut PolicyDelGetMsg)
        ensures
            *r == old(self).message,
            *final(self) == (PolicyDeleteRequest { message: *final(r) }),
    {
        &mut self.message
    }
}

} // verus!
